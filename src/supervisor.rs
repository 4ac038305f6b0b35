use vstd::prelude::*;

use crate::config::Config;
use crate::mode::{config_run_mode, determine_run_mode, RunMode};
use crate::options::StartMode;

verus! {

/// A classified configuration change: a full reconfiguration, which restarts
/// the instance, or a change to one named service, which the live generation
/// takes without a restart.
pub enum ConfigChange<P> {
    General(Config),
    Service(String, P),
}

/// What the driver of a supervised run hands to the supervisor.
pub enum Input<P> {
    /// The event source delivered a change.
    Change(ConfigChange<P>),
    /// The event source ended: the process-wide shutdown fired.
    SourceEnded,
    /// The generation that the supervisor asked to stop has been awaited;
    /// `true` when it ended cleanly, `false` when it returned an error or its
    /// task failed.
    GenerationEnded(bool),
}

/// Why a supervised run failed.
#[derive(Clone, Copy, Debug, PartialEq, Eq, Structural)]
pub enum FailReason {
    /// The configuration does not say whether to run as client or server.
    UndeterminedMode,
    /// A generation that was being stopped ended with an error.
    GenerationFailed,
}

/// What the driver does next.
pub enum Action<P> {
    /// Create a fresh per-generation stop signal and update queue and start
    /// the instance runner on this configuration in this role.
    Launch(Config, RunMode),
    /// Broadcast stop to the live generation and await its task, then report
    /// the outcome with `Input::GenerationEnded`.
    StopGeneration,
    /// Send this service change on the live generation's update queue; a
    /// failed send is dropped.
    Forward(String, P),
    /// Nothing to do; wait for the next event.
    Discard,
    /// The supervised run has ended successfully.
    Finish,
    /// The supervised run has failed for good.
    Fail(FailReason),
}

/// Where the supervised run stands.
pub enum Phase {
    /// No generation is live.
    Idle,
    /// One generation is live.
    Running,
    /// The live generation is being stopped; this configuration starts next.
    Restarting(Config),
    /// The live generation is being stopped because the event source ended.
    Stopping,
    /// The run is over.
    Finished,
}

/// The decisions of a supervised run: which generation to start, stop or
/// feed. The driver performs each action and reports back; the supervisor
/// alone decides.
pub struct Supervisor {
    /// The mode requested when the run was started; every reconfiguration
    /// resolves its role under it.
    pub mode: StartMode,
    pub phase: Phase,
}

/// Whether a generation is live in `phase`.
pub open spec fn generation_live(phase: Phase) -> bool {
    phase is Running || phase is Restarting || phase is Stopping
}

/// Whether `input` can arrive in `phase`: events while the driver waits on
/// the event source, the end of a generation while it waits on that
/// generation, nothing once the run is over.
pub open spec fn accepts<P>(phase: Phase, input: Input<P>) -> bool {
    match input {
        Input::GenerationEnded(_) => phase is Restarting || phase is Stopping,
        _ => phase is Idle || phase is Running,
    }
}

/// Starting a generation on `config`: fatal when the role cannot be resolved.
pub open spec fn launch_spec<P>(mode: StartMode, config: Config) -> (Phase, Action<P>) {
    let rm = config_run_mode(config, mode);
    if rm == RunMode::Undetermine {
        (Phase::Finished, Action::Fail(FailReason::UndeterminedMode))
    } else {
        (Phase::Running, Action::Launch(config, rm))
    }
}

/// The next phase and the action for `input` in `phase`.
pub open spec fn transition<P>(phase: Phase, mode: StartMode, input: Input<P>) -> (
    Phase,
    Action<P>,
) {
    match input {
        Input::Change(ConfigChange::General(config)) => if phase is Idle {
            launch_spec(mode, config)
        } else {
            (Phase::Restarting(config), Action::StopGeneration)
        },
        Input::Change(ConfigChange::Service(name, payload)) => if phase is Running {
            (phase, Action::Forward(name, payload))
        } else {
            (phase, Action::Discard)
        },
        Input::SourceEnded => if phase is Running {
            (Phase::Stopping, Action::StopGeneration)
        } else {
            (Phase::Finished, Action::Finish)
        },
        Input::GenerationEnded(clean) => if !clean {
            (Phase::Finished, Action::Fail(FailReason::GenerationFailed))
        } else {
            match phase {
                Phase::Restarting(config) => launch_spec(mode, config),
                _ => (Phase::Finished, Action::Finish),
            }
        },
    }
}

impl Supervisor {
    /// A supervisor for a run started with `mode`; no generation is live.
    pub fn new(mode: StartMode) -> (r: Supervisor)
        ensures
            r.mode == mode,
            r.phase is Idle,
    {
        Supervisor { mode, phase: Phase::Idle }
    }

    /// Whether the run is over.
    pub fn is_finished(&self) -> (r: bool)
        ensures
            r == self.phase is Finished,
    {
        match self.phase {
            Phase::Finished => true,
            _ => false,
        }
    }

    /// Whether the driver waits on the event source.
    pub fn awaits_event(&self) -> (r: bool)
        ensures
            r == (self.phase is Idle || self.phase is Running),
    {
        match self.phase {
            Phase::Idle | Phase::Running => true,
            _ => false,
        }
    }

    fn launch<P>(&mut self, config: Config) -> (r: Action<P>)
        ensures
            final(self).mode == old(self).mode,
            (final(self).phase, r) == launch_spec::<P>(old(self).mode, config),
    {
        let rm = determine_run_mode(&config, self.mode);
        match rm {
            RunMode::Undetermine => {
                self.phase = Phase::Finished;
                Action::Fail(FailReason::UndeterminedMode)
            },
            _ => {
                self.phase = Phase::Running;
                Action::Launch(config, rm)
            },
        }
    }

    /// Takes one input and says what to do about it.
    pub fn step<P>(&mut self, input: Input<P>) -> (r: Action<P>)
        requires
            accepts(old(self).phase, input),
        ensures
            final(self).mode == old(self).mode,
            (final(self).phase, r) == transition(old(self).phase, old(self).mode, input),
    {
        match input {
            Input::Change(ConfigChange::General(config)) => {
                match self.phase {
                    Phase::Idle => self.launch(config),
                    _ => {
                        self.phase = Phase::Restarting(config);
                        Action::StopGeneration
                    },
                }
            },
            Input::Change(ConfigChange::Service(name, payload)) => {
                match self.phase {
                    Phase::Running => Action::Forward(name, payload),
                    _ => Action::Discard,
                }
            },
            Input::SourceEnded => {
                match self.phase {
                    Phase::Running => {
                        self.phase = Phase::Stopping;
                        Action::StopGeneration
                    },
                    _ => {
                        self.phase = Phase::Finished;
                        Action::Finish
                    },
                }
            },
            Input::GenerationEnded(clean) => {
                if !clean {
                    self.phase = Phase::Finished;
                    Action::Fail(FailReason::GenerationFailed)
                } else {
                    let mut prev = Phase::Finished;
                    core::mem::swap(&mut prev, &mut self.phase);
                    match prev {
                        Phase::Restarting(config) => self.launch(config),
                        _ => Action::Finish,
                    }
                }
            },
        }
    }
}

/// A generation is started only when none is live: from an idle run on a
/// full reconfiguration, or once the generation being replaced has been
/// awaited and ended cleanly. After a start exactly one generation is live,
/// and a stop is asked only of a live generation.
pub proof fn lemma_one_live_generation<P>(phase: Phase, mode: StartMode, input: Input<P>)
    requires
        accepts(phase, input),
    ensures
        transition(phase, mode, input).1 is Launch ==> (phase is Idle && input is Change) || (
        phase is Restarting && input == Input::<P>::GenerationEnded(true)),
        transition(phase, mode, input).1 is Launch ==> transition(phase, mode, input).0 is Running,
        transition(phase, mode, input).1 is StopGeneration ==> generation_live(phase)
            && generation_live(transition(phase, mode, input).0),
        generation_live(phase) && !(input is GenerationEnded) ==> generation_live(
            transition(phase, mode, input).0,
        ),
{
}

/// A full reconfiguration of a running instance first stops the live
/// generation; the new configuration starts only after the old generation
/// has ended cleanly, and an error from the old one ends the whole run with
/// no new generation.
pub proof fn lemma_restart_waits<P>(mode: StartMode, config: Config)
    ensures
        transition(Phase::Running, mode, Input::<P>::Change(ConfigChange::General(config))) == (
        Phase::Restarting(config), Action::<P>::StopGeneration),
        transition(Phase::Restarting(config), mode, Input::<P>::GenerationEnded(true))
            == launch_spec::<P>(mode, config),
        transition(Phase::Restarting(config), mode, Input::<P>::GenerationEnded(false)) == (
        Phase::Finished, Action::<P>::Fail(FailReason::GenerationFailed)),
{
}

/// A generation starts on a configuration exactly when its role resolves;
/// an unresolvable role ends the run for good.
pub proof fn lemma_launch_resolves<P>(mode: StartMode, config: Config)
    ensures
        config_run_mode(config, mode) != RunMode::Undetermine ==> launch_spec::<P>(mode, config)
            == (Phase::Running, Action::<P>::Launch(config, config_run_mode(config, mode))),
        config_run_mode(config, mode) == RunMode::Undetermine ==> launch_spec::<P>(mode, config)
            == (Phase::Finished, Action::<P>::Fail(FailReason::UndeterminedMode)),
{
}

/// A service change goes to the live generation unchanged and in the order
/// received; with no generation live it is dropped without an error, and in
/// neither case does the phase change.
pub proof fn lemma_service_changes<P>(phase: Phase, mode: StartMode, name: String, payload: P)
    requires
        phase is Idle || phase is Running,
    ensures
        transition(phase, mode, Input::Change(ConfigChange::Service(name, payload))).0 == phase,
        phase is Running ==> transition(
            phase,
            mode,
            Input::Change(ConfigChange::Service(name, payload)),
        ).1 == Action::Forward(name, payload),
        phase is Idle ==> transition(
            phase,
            mode,
            Input::Change(ConfigChange::Service(name, payload)),
        ).1 == Action::<P>::Discard,
{
}

/// When the event source ends, a live generation is stopped and awaited and
/// the run succeeds exactly when it ended cleanly; with none live the run
/// succeeds at once.
pub proof fn lemma_shutdown_drains<P>(mode: StartMode)
    ensures
        transition(Phase::Running, mode, Input::<P>::SourceEnded) == (
        Phase::Stopping, Action::<P>::StopGeneration),
        transition(Phase::Stopping, mode, Input::<P>::GenerationEnded(true)) == (
        Phase::Finished, Action::<P>::Finish),
        transition(Phase::Stopping, mode, Input::<P>::GenerationEnded(false)) == (
        Phase::Finished, Action::<P>::Fail(FailReason::GenerationFailed)),
        transition(Phase::Idle, mode, Input::<P>::SourceEnded) == (
        Phase::Finished, Action::<P>::Finish),
{
}

/// The first full reconfiguration of a run, on a configuration whose role
/// resolves, starts exactly one generation on it in that role, and after it
/// exactly that generation is live.
pub proof fn lemma_first_general_starts_one<P>(mode: StartMode, config: Config)
    requires
        config_run_mode(config, mode) != RunMode::Undetermine,
    ensures
        transition(Phase::Idle, mode, Input::<P>::Change(ConfigChange::General(config))) == (
        Phase::Running, Action::<P>::Launch(config, config_run_mode(config, mode))),
{
}

/// Two full reconfigurations in a row, the second on a configuration whose
/// role resolves: the first generation is started, then stopped, and the
/// second starts only once the first has been awaited and ended cleanly.
pub proof fn lemma_two_generals_in_sequence<P>(mode: StartMode, a: Config, b: Config)
    requires
        config_run_mode(a, mode) != RunMode::Undetermine,
        config_run_mode(b, mode) != RunMode::Undetermine,
    ensures
        transition(Phase::Idle, mode, Input::<P>::Change(ConfigChange::General(a))) == (
        Phase::Running, Action::<P>::Launch(a, config_run_mode(a, mode))),
        transition(Phase::Running, mode, Input::<P>::Change(ConfigChange::General(b))) == (
        Phase::Restarting(b), Action::<P>::StopGeneration),
        transition(Phase::Restarting(b), mode, Input::<P>::GenerationEnded(true)) == (
        Phase::Running, Action::<P>::Launch(b, config_run_mode(b, mode))),
{
}

/// A service change before any generation is dropped, and the run goes on:
/// a full reconfiguration after it, on a configuration whose role resolves,
/// starts a generation, which never receives the dropped change.
pub proof fn lemma_dropped_service_then_general<P>(
    mode: StartMode,
    name: String,
    payload: P,
    config: Config,
)
    requires
        config_run_mode(config, mode) != RunMode::Undetermine,
    ensures
        transition(Phase::Idle, mode, Input::Change(ConfigChange::Service(name, payload))) == (
        Phase::Idle, Action::<P>::Discard),
        transition(Phase::Idle, mode, Input::<P>::Change(ConfigChange::General(config))) == (
        Phase::Running, Action::<P>::Launch(config, config_run_mode(config, mode))),
{
}

/// A run with one generation, on a configuration whose role resolves, whose
/// event source then ends: the generation is stopped and awaited, and the
/// run succeeds when it ended cleanly.
pub proof fn lemma_general_then_shutdown<P>(mode: StartMode, config: Config)
    requires
        config_run_mode(config, mode) != RunMode::Undetermine,
    ensures
        transition(Phase::Idle, mode, Input::<P>::Change(ConfigChange::General(config))) == (
        Phase::Running, Action::<P>::Launch(config, config_run_mode(config, mode))),
        transition(Phase::Running, mode, Input::<P>::SourceEnded) == (
        Phase::Stopping, Action::<P>::StopGeneration),
        transition(Phase::Stopping, mode, Input::<P>::GenerationEnded(true)) == (
        Phase::Finished, Action::<P>::Finish),
{
}

} // verus!
