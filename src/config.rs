use vstd::prelude::*;

verus! {

/// The server section of a configuration.
#[derive(Clone, Debug)]
pub struct ServerConfig {
    pub bind_addr: String,
}

/// The client section of a configuration.
#[derive(Clone, Debug)]
pub struct ClientConfig {
    pub remote_addr: String,
}

/// A configuration snapshot. A new snapshot replaces an old one; it is never
/// changed once handed to a generation.
#[derive(Clone, Debug)]
pub struct Config {
    pub server: Option<ServerConfig>,
    pub client: Option<ClientConfig>,
}

impl Default for ServerConfig {
    fn default() -> (r: ServerConfig)
        ensures
            r.bind_addr@ == Seq::<char>::empty(),
    {
        ServerConfig { bind_addr: String::new() }
    }
}

impl Default for ClientConfig {
    fn default() -> (r: ClientConfig)
        ensures
            r.remote_addr@ == Seq::<char>::empty(),
    {
        ClientConfig { remote_addr: String::new() }
    }
}

} // verus!
