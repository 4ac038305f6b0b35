use vstd::prelude::*;

use crate::options::{RatholeOptions, StartMode};
use tokio::sync::broadcast::{Receiver, Sender};

verus! {

#[verifier::external_type_specification]
#[verifier::external_body]
#[verifier::reject_recursive_types(T)]
pub struct ExSender<T>(Sender<T>);

#[verifier::external_type_specification]
#[verifier::external_body]
#[verifier::reject_recursive_types(T)]
pub struct ExReceiver<T>(Receiver<T>);

/// Relies on tokio::sync::broadcast::channel: a connected sender and receiver.
/// A capacity of one cannot panic (it panics on zero and on more than half of
/// `usize::MAX`).
#[verifier::external_body]
fn shutdown_channel() -> (r: (Sender<bool>, Receiver<bool>)) {
    tokio::sync::broadcast::channel::<bool>(1)
}

/// Why the guard refused an operation.
#[derive(Clone, Copy, Debug, PartialEq, Eq, Structural)]
pub enum GuardError {
    /// A supervised run is active already.
    AlreadyRunning,
    /// No supervised run is active.
    NotRunning,
}

/// What a run that was admitted by the guard starts with: its options, the
/// receiving end of its process-wide shutdown signal, and the number the
/// guard gave it.
pub struct RunTicket {
    pub options: RatholeOptions,
    pub shutdown: Receiver<bool>,
    pub run: u64,
}

/// Holds the process-wide shutdown sender of the one active supervised run,
/// if there is one, and the number of the run admitted last. Callers that
/// share it serialise access with a lock held only for one call.
pub struct InstanceGuard {
    shutdown: Option<Sender<bool>>,
    run: u64,
}

impl InstanceGuard {
    /// Whether a supervised run is active.
    pub closed spec fn is_active(&self) -> bool {
        self.shutdown is Some
    }

    /// The shutdown sender of the active run.
    pub closed spec fn sender(&self) -> Sender<bool> {
        self.shutdown->Some_0
    }

    /// The number of the run admitted last.
    pub closed spec fn run_id(&self) -> u64 {
        self.run
    }

    /// A guard with no active run.
    pub fn new() -> (r: InstanceGuard)
        ensures
            !r.is_active(),
    {
        InstanceGuard { shutdown: None, run: 0 }
    }

    /// Whether a supervised run is active.
    pub fn is_running(&self) -> (r: bool)
        ensures
            r == self.is_active(),
    {
        self.shutdown.is_some()
    }

    /// Admits a new run when none is active, and hands back the receiver of
    /// its shutdown signal with the run's number, which differs from the
    /// number of the run before; otherwise fails with `AlreadyRunning` and
    /// leaves the active run undisturbed.
    pub fn try_acquire(&mut self) -> (r: Result<(Receiver<bool>, u64), GuardError>)
        ensures
            old(self).is_active() ==> r is Err && r->Err_0 == GuardError::AlreadyRunning
                && *final(self) == *old(self),
            !old(self).is_active() ==> r is Ok && final(self).is_active() && r->Ok_0.1 == final(
                self).run_id() && final(self).run_id() != old(self).run_id(),
    {
        if self.shutdown.is_some() {
            return Err(GuardError::AlreadyRunning);
        }
        let (tx, rx) = shutdown_channel();
        self.shutdown = Some(tx);
        self.run = self.run.wrapping_add(1);
        Ok((rx, self.run))
    }

    /// Ends the admission of run `run` when it is the active run; does
    /// nothing otherwise, so a run that ends after being stopped cannot end
    /// the admission of a run admitted after it.
    pub fn release(&mut self, run: u64)
        ensures
            old(self).is_active() && old(self).run_id() == run ==> !final(self).is_active()
                && final(self).run_id() == old(self).run_id(),
            !(old(self).is_active() && old(self).run_id() == run) ==> *final(self) == *old(self),
    {
        if self.shutdown.is_some() && self.run == run {
            self.shutdown = None;
        }
    }

    /// Takes the active run's shutdown sender and hands it back, for the
    /// caller to broadcast the stop value on it once; fails with `NotRunning`
    /// when no run is active. Does not wait for the run to end.
    pub fn stop(&mut self) -> (r: Result<Sender<bool>, GuardError>)
        ensures
            !final(self).is_active(),
            final(self).run_id() == old(self).run_id(),
            old(self).is_active() ==> r is Ok && r->Ok_0 == old(self).sender(),
            !old(self).is_active() ==> r is Err && r->Err_0 == GuardError::NotRunning,
    {
        match self.shutdown.take() {
            Some(tx) => Ok(tx),
            None => Err(GuardError::NotRunning),
        }
    }
}

/// Two attempts to admit a run, one after the other on the same guard: the
/// second always fails with `AlreadyRunning`, and when no run was active
/// before, the first succeeds; so of two callers exactly one is admitted.
pub proof fn lemma_acquire_exclusive(
    g0: InstanceGuard,
    g1: InstanceGuard,
    g2: InstanceGuard,
    r1: Result<(Receiver<bool>, u64), GuardError>,
    r2: Result<(Receiver<bool>, u64), GuardError>,
)
    requires
        g0.is_active() ==> r1 is Err && r1->Err_0 == GuardError::AlreadyRunning && g1 == g0,
        !g0.is_active() ==> r1 is Ok && g1.is_active(),
        g1.is_active() ==> r2 is Err && r2->Err_0 == GuardError::AlreadyRunning && g2 == g1,
        !g1.is_active() ==> r2 is Ok && g2.is_active(),
    ensures
        r2 is Err && r2->Err_0 == GuardError::AlreadyRunning,
        !g0.is_active() ==> r1 is Ok,
{
}

/// A run that was stopped cannot end the admission of the run admitted
/// after it: once its sender is taken and a new run is admitted, its own
/// `release` leaves the guard as it is.
pub proof fn lemma_release_own_run(
    g0: InstanceGuard,
    g1: InstanceGuard,
    g2: InstanceGuard,
    g3: InstanceGuard,
    old_run: u64,
)
    requires
        g0.is_active() && g0.run_id() == old_run,
        !g1.is_active() && g1.run_id() == g0.run_id(),
        g2.is_active() && g2.run_id() != g1.run_id(),
        g2.is_active() && g2.run_id() == old_run ==> !g3.is_active(),
        !(g2.is_active() && g2.run_id() == old_run) ==> g3 == g2,
    ensures
        g3 == g2,
        g3.is_active(),
{
}

/// Admits a supervised run with `options` when none is active; the caller
/// then drives the run and calls `release` with the run's number when it has
/// ended. Fails with `AlreadyRunning`, leaving the guard as it was, when a
/// run is active.
pub fn start_with_options(guard: &mut InstanceGuard, options: RatholeOptions) -> (r: Result<
    RunTicket,
    GuardError,
>)
    ensures
        old(guard).is_active() ==> r is Err && r->Err_0 == GuardError::AlreadyRunning && *final(
            guard) == *old(guard),
        !old(guard).is_active() ==> r is Ok && r->Ok_0.run == final(guard).run_id() && final(
            guard).is_active() && final(guard).run_id() != old(guard).run_id(),
        !old(guard).is_active() ==> r->Ok_0.options == options,
{
    match guard.try_acquire() {
        Ok((shutdown, run)) => Ok(RunTicket { options, shutdown, run }),
        Err(e) => Err(e),
    }
}

/// Admits a run on the configuration at `config_path`, with the role left to
/// the configuration.
pub fn start(guard: &mut InstanceGuard, config_path: &str) -> (r: Result<RunTicket, GuardError>)
    ensures
        old(guard).is_active() ==> r is Err && r->Err_0 == GuardError::AlreadyRunning && *final(
            guard) == *old(guard),
        !old(guard).is_active() ==> r is Ok && r->Ok_0.run == final(guard).run_id() && final(
            guard).is_active() && final(guard).run_id() != old(guard).run_id(),
        !old(guard).is_active() ==> r->Ok_0.options.config_path@ == config_path@
            && r->Ok_0.options.mode == StartMode::Auto,
{
    start_with_options(guard, RatholeOptions::from_path(config_path))
}

/// Admits a run on the configuration at `config_path` in the client role.
pub fn start_client(guard: &mut InstanceGuard, config_path: &str) -> (r: Result<RunTicket, GuardError>)
    ensures
        old(guard).is_active() ==> r is Err && r->Err_0 == GuardError::AlreadyRunning && *final(
            guard) == *old(guard),
        !old(guard).is_active() ==> r is Ok && r->Ok_0.run == final(guard).run_id() && final(
            guard).is_active() && final(guard).run_id() != old(guard).run_id(),
        !old(guard).is_active() ==> r->Ok_0.options.config_path@ == config_path@
            && r->Ok_0.options.mode == StartMode::Client,
{
    start_with_options(guard, RatholeOptions::client(config_path))
}

/// Admits a run on the configuration at `config_path` in the server role.
pub fn start_server(guard: &mut InstanceGuard, config_path: &str) -> (r: Result<RunTicket, GuardError>)
    ensures
        old(guard).is_active() ==> r is Err && r->Err_0 == GuardError::AlreadyRunning && *final(
            guard) == *old(guard),
        !old(guard).is_active() ==> r is Ok && r->Ok_0.run == final(guard).run_id() && final(
            guard).is_active() && final(guard).run_id() != old(guard).run_id(),
        !old(guard).is_active() ==> r->Ok_0.options.config_path@ == config_path@
            && r->Ok_0.options.mode == StartMode::Server,
{
    start_with_options(guard, RatholeOptions::server(config_path))
}

/// Takes the active run's shutdown sender and hands it back, for the caller
/// to broadcast the stop value on it once; fails with `NotRunning` when none
/// is active. Returns before the run has ended.
pub fn stop(guard: &mut InstanceGuard) -> (r: Result<Sender<bool>, GuardError>)
    ensures
        !final(guard).is_active(),
        final(guard).run_id() == old(guard).run_id(),
        old(guard).is_active() ==> r is Ok && r->Ok_0 == old(guard).sender(),
        !old(guard).is_active() ==> r is Err && r->Err_0 == GuardError::NotRunning,
{
    guard.stop()
}

/// The stop signal of a run goes out once: a successful `stop` hands back
/// the active run's sender, and right after it a second `stop` fails with
/// `NotRunning`, so the sender cannot be handed out twice; with no run
/// active the first one fails already.
pub proof fn lemma_stop_once(
    g0: InstanceGuard,
    g1: InstanceGuard,
    g2: InstanceGuard,
    r1: Result<Sender<bool>, GuardError>,
    r2: Result<Sender<bool>, GuardError>,
)
    requires
        !g1.is_active(),
        g0.is_active() ==> r1 is Ok && r1->Ok_0 == g0.sender(),
        !g0.is_active() ==> r1 is Err && r1->Err_0 == GuardError::NotRunning,
        !g2.is_active(),
        g1.is_active() ==> r2 is Ok && r2->Ok_0 == g1.sender(),
        !g1.is_active() ==> r2 is Err && r2->Err_0 == GuardError::NotRunning,
    ensures
        r2 is Err && r2->Err_0 == GuardError::NotRunning,
        g0.is_active() ==> r1 is Ok && r1->Ok_0 == g0.sender(),
        !g0.is_active() ==> r1 is Err && r1->Err_0 == GuardError::NotRunning,
{
}

} // verus!
