use vstd::prelude::*;

use crate::config::Config;
use crate::options::StartMode;

verus! {

/// The role a generation runs in, or `Undetermine` when the configuration
/// does not say.
#[derive(Clone, Copy, Debug, PartialEq, Eq, Structural)]
pub enum RunMode {
    Server,
    Client,
    Undetermine,
}

/// The role for a configuration with the given sections under a requested
/// mode: an explicit mode always wins; `Auto` needs exactly one section.
pub open spec fn run_mode_of(has_server: bool, has_client: bool, mode: StartMode) -> RunMode {
    match mode {
        StartMode::Client => RunMode::Client,
        StartMode::Server => RunMode::Server,
        StartMode::Auto => if has_server && !has_client {
            RunMode::Server
        } else if has_client && !has_server {
            RunMode::Client
        } else {
            RunMode::Undetermine
        },
    }
}

/// The role that `config` runs in under the requested `mode`.
pub open spec fn config_run_mode(config: Config, mode: StartMode) -> RunMode {
    run_mode_of(config.server is Some, config.client is Some, mode)
}

/// Decides whether a configuration runs as a client or a server.
pub fn determine_run_mode(config: &Config, mode: StartMode) -> (r: RunMode)
    ensures
        r == config_run_mode(*config, mode),
{
    match mode {
        StartMode::Client => RunMode::Client,
        StartMode::Server => RunMode::Server,
        StartMode::Auto => {
            let has_client = config.client.is_some();
            let has_server = config.server.is_some();
            match (has_server, has_client) {
                (true, false) => RunMode::Server,
                (false, true) => RunMode::Client,
                _ => RunMode::Undetermine,
            }
        },
    }
}

/// Resolving is total: every requested mode and every pair of sections gives
/// one of the three outcomes, an explicit mode is returned as it is, and
/// `Auto` gives a role exactly when one section alone is present.
pub proof fn lemma_run_mode_total(has_server: bool, has_client: bool, mode: StartMode)
    ensures
        mode == StartMode::Client ==> run_mode_of(has_server, has_client, mode) == RunMode::Client,
        mode == StartMode::Server ==> run_mode_of(has_server, has_client, mode) == RunMode::Server,
        mode == StartMode::Auto ==> (run_mode_of(has_server, has_client, mode)
            == RunMode::Undetermine <==> has_server == has_client),
        mode == StartMode::Auto && has_server && !has_client ==> run_mode_of(
            has_server,
            has_client,
            mode,
        ) == RunMode::Server,
        mode == StartMode::Auto && has_client && !has_server ==> run_mode_of(
            has_server,
            has_client,
            mode,
        ) == RunMode::Client,
{
}

} // verus!
