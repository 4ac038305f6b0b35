use vstd::prelude::*;

verus! {

/// Elliptic curve used by the handshake key pair.
#[derive(Clone, Copy, Debug, PartialEq, Eq, Structural)]
pub enum NoiseCurve {
    X25519,
    X448,
}

/// Role requested for a supervised run.
#[derive(Clone, Copy, Debug, PartialEq, Eq, Structural)]
pub enum StartMode {
    Auto,
    Client,
    Server,
}

/// What a supervised run is started with: the watched configuration file and
/// the requested role.
#[derive(Clone, Debug)]
pub struct RatholeOptions {
    pub config_path: String,
    pub mode: StartMode,
}

impl RatholeOptions {
    /// Options that let the configuration decide the role.
    pub fn from_path(path: &str) -> (r: RatholeOptions)
        ensures
            r.config_path@ == path@,
            r.mode == StartMode::Auto,
    {
        RatholeOptions { config_path: path.to_owned(), mode: StartMode::Auto }
    }

    /// Options that force the client role.
    pub fn client(path: &str) -> (r: RatholeOptions)
        ensures
            r.config_path@ == path@,
            r.mode == StartMode::Client,
    {
        RatholeOptions { config_path: path.to_owned(), mode: StartMode::Client }
    }

    /// Options that force the server role.
    pub fn server(path: &str) -> (r: RatholeOptions)
        ensures
            r.config_path@ == path@,
            r.mode == StartMode::Server,
    {
        RatholeOptions { config_path: path.to_owned(), mode: StartMode::Server }
    }
}

/// The mode asked for on the command line: one role flag alone forces that
/// role; both flags or neither leave it to the configuration.
pub fn start_mode_from_flags(client: bool, server: bool) -> (r: StartMode)
    ensures
        r == (if client && !server {
            StartMode::Client
        } else if server && !client {
            StartMode::Server
        } else {
            StartMode::Auto
        }),
{
    if client && server {
        StartMode::Auto
    } else if client {
        StartMode::Client
    } else if server {
        StartMode::Server
    } else {
        StartMode::Auto
    }
}

} // verus!
