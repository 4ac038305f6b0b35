//! Supervisor for a single tunnel instance whose configuration can change
//! while it runs: the run-mode resolver, the single-instance guard, the
//! generation state machine, and handshake key-pair generation.

mod config;
mod guard;
mod keypair;
mod mode;
mod options;
mod supervisor;

pub use config::{ClientConfig, Config, ServerConfig};
pub use guard::{
    start, start_client, start_server, start_with_options, stop, GuardError, InstanceGuard,
    RunTicket,
};
pub use keypair::{
    encode_keypair, generate_noise_keypair, handshake_pattern, noise_pattern, KeypairError, DEFAULT_NOISE_CURVE,
};
pub use mode::{determine_run_mode, RunMode};
pub use options::{start_mode_from_flags, NoiseCurve, RatholeOptions, StartMode};
pub use supervisor::{Action, ConfigChange, FailReason, Input, Phase, Supervisor};
