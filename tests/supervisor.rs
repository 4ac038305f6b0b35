use rathole::{
    Action, ClientConfig, Config, ConfigChange, FailReason, Input, Phase, RunMode, ServerConfig,
    StartMode, Supervisor,
};

fn server_config(addr: &str) -> Config {
    Config { server: Some(ServerConfig { bind_addr: addr.to_string() }), client: None }
}

fn ambiguous_config() -> Config {
    Config { server: Some(ServerConfig::default()), client: Some(ClientConfig::default()) }
}

fn general(config: Config) -> Input<u32> {
    Input::Change(ConfigChange::General(config))
}

fn service(name: &str, payload: u32) -> Input<u32> {
    Input::Change(ConfigChange::Service(name.to_string(), payload))
}

#[test]
fn single_general_event_starts_one_generation() {
    let mut sup = Supervisor::new(StartMode::Auto);
    let action = sup.step(general(server_config("0.0.0.0:2333")));
    match action {
        Action::Launch(config, mode) => {
            assert_eq!(mode, RunMode::Server);
            assert_eq!(config.server.unwrap().bind_addr, "0.0.0.0:2333");
        }
        _ => panic!("expected a launch"),
    }
    assert!(matches!(sup.phase, Phase::Running));
    assert!(sup.awaits_event());
    assert!(!sup.is_finished());
}

#[test]
fn second_general_event_restarts_after_drain() {
    let mut sup = Supervisor::new(StartMode::Auto);
    assert!(matches!(sup.step(general(server_config("a"))), Action::Launch(_, RunMode::Server)));
    assert!(matches!(sup.step(general(server_config("b"))), Action::StopGeneration));
    assert!(matches!(sup.phase, Phase::Restarting(_)));
    assert!(!sup.awaits_event());
    match sup.step(Input::<u32>::GenerationEnded(true)) {
        Action::Launch(config, RunMode::Server) => {
            assert_eq!(config.server.unwrap().bind_addr, "b");
        }
        _ => panic!("expected generation b to start"),
    }
    assert!(matches!(sup.phase, Phase::Running));
}

#[test]
fn service_change_without_generation_is_dropped() {
    let mut sup = Supervisor::new(StartMode::Auto);
    assert!(matches!(sup.step(service("up1", 7)), Action::Discard));
    assert!(matches!(sup.phase, Phase::Idle));
    assert!(matches!(sup.step(general(server_config("a"))), Action::Launch(_, _)));
}

#[test]
fn service_change_is_forwarded_to_live_generation() {
    let mut sup = Supervisor::new(StartMode::Server);
    assert!(matches!(sup.step(general(ambiguous_config())), Action::Launch(_, RunMode::Server)));
    match sup.step(service("up1", 7)) {
        Action::Forward(name, payload) => {
            assert_eq!(name, "up1");
            assert_eq!(payload, 7);
        }
        _ => panic!("expected a forward"),
    }
    assert!(matches!(sup.phase, Phase::Running));
}

#[test]
fn failed_generation_during_restart_is_fatal() {
    let mut sup = Supervisor::new(StartMode::Auto);
    assert!(matches!(sup.step(general(server_config("a"))), Action::Launch(_, _)));
    assert!(matches!(sup.step(general(server_config("b"))), Action::StopGeneration));
    assert!(matches!(
        sup.step(Input::<u32>::GenerationEnded(false)),
        Action::Fail(FailReason::GenerationFailed)
    ));
    assert!(sup.is_finished());
}

#[test]
fn source_end_drains_live_generation() {
    let mut sup = Supervisor::new(StartMode::Auto);
    assert!(matches!(sup.step(general(server_config("a"))), Action::Launch(_, _)));
    assert!(matches!(sup.step(Input::<u32>::SourceEnded), Action::StopGeneration));
    assert!(matches!(sup.phase, Phase::Stopping));
    assert!(matches!(sup.step(Input::<u32>::GenerationEnded(true)), Action::Finish));
    assert!(sup.is_finished());
}

#[test]
fn source_end_with_failed_generation_fails() {
    let mut sup = Supervisor::new(StartMode::Auto);
    assert!(matches!(sup.step(general(server_config("a"))), Action::Launch(_, _)));
    assert!(matches!(sup.step(Input::<u32>::SourceEnded), Action::StopGeneration));
    assert!(matches!(
        sup.step(Input::<u32>::GenerationEnded(false)),
        Action::Fail(FailReason::GenerationFailed)
    ));
}

#[test]
fn source_end_without_generation_finishes() {
    let mut sup = Supervisor::new(StartMode::Client);
    assert!(matches!(sup.step(Input::<u32>::SourceEnded), Action::Finish));
    assert!(sup.is_finished());
}

#[test]
fn undetermined_mode_is_fatal() {
    let mut sup = Supervisor::new(StartMode::Auto);
    assert!(matches!(
        sup.step(general(ambiguous_config())),
        Action::Fail(FailReason::UndeterminedMode)
    ));
    assert!(sup.is_finished());
}

#[test]
fn undetermined_mode_on_restart_is_fatal() {
    let mut sup = Supervisor::new(StartMode::Auto);
    assert!(matches!(sup.step(general(server_config("a"))), Action::Launch(_, _)));
    assert!(matches!(sup.step(general(ambiguous_config())), Action::StopGeneration));
    assert!(matches!(
        sup.step(Input::<u32>::GenerationEnded(true)),
        Action::Fail(FailReason::UndeterminedMode)
    ));
}
