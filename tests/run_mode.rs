use rathole::{determine_run_mode, ClientConfig, Config, RunMode, ServerConfig, StartMode};

struct Case {
    cfg_s: bool,
    cfg_c: bool,
    mode: StartMode,
    expected: RunMode,
}

fn config_with(server: bool, client: bool) -> Config {
    Config {
        server: if server { Some(ServerConfig::default()) } else { None },
        client: if client { Some(ClientConfig::default()) } else { None },
    }
}

#[test]
fn test_determine_run_mode() {
    let tests = [
        Case { cfg_s: false, cfg_c: false, mode: StartMode::Auto, expected: RunMode::Undetermine },
        Case { cfg_s: true, cfg_c: false, mode: StartMode::Auto, expected: RunMode::Server },
        Case { cfg_s: false, cfg_c: true, mode: StartMode::Auto, expected: RunMode::Client },
        Case { cfg_s: true, cfg_c: true, mode: StartMode::Auto, expected: RunMode::Undetermine },
        Case { cfg_s: true, cfg_c: true, mode: StartMode::Server, expected: RunMode::Server },
        Case { cfg_s: true, cfg_c: true, mode: StartMode::Client, expected: RunMode::Client },
    ];

    for t in &tests {
        let config = config_with(t.cfg_s, t.cfg_c);
        assert_eq!(determine_run_mode(&config, t.mode), t.expected);
    }
}

#[test]
fn explicit_mode_wins_over_missing_section() {
    let empty = config_with(false, false);
    assert_eq!(determine_run_mode(&empty, StartMode::Server), RunMode::Server);
    assert_eq!(determine_run_mode(&empty, StartMode::Client), RunMode::Client);
    let only_client = config_with(false, true);
    assert_eq!(determine_run_mode(&only_client, StartMode::Server), RunMode::Server);
}

#[test]
fn resolving_is_deterministic_over_all_inputs() {
    for s in [false, true] {
        for c in [false, true] {
            for m in [StartMode::Auto, StartMode::Client, StartMode::Server] {
                let a = determine_run_mode(&config_with(s, c), m);
                let b = determine_run_mode(&config_with(s, c), m);
                assert_eq!(a, b);
            }
        }
    }
}
