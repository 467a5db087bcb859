//! The supervisor: a state machine that decides, from the outcome of each
//! effect, which effect comes next.
//!
//! The machine performs nothing itself. Each step takes the outcome of
//! the command issued before and answers with at most one status record
//! to send and one command to carry out. The caller owns the child
//! process and the control channel, and blocks in one place only: the
//! bounded wait, which serves as poll timer and as stop listener alike.

use vstd::prelude::*;
use crate::config::{outcome_view, ConfigError, LaunchConfig, LaunchConfigView};
use crate::control::WaitOutcome;
use crate::status::{Phase, StatusReport};

verus! {

/// Length of one bounded wait on the control channel, and so the period
/// at which the child's liveness is checked.
pub const POLL_INTERVAL_SECONDS: u64 = 1;

/// Pause between the child's exit and the attempt to start it again.
pub const RESTART_DELAY_SECONDS: u64 = 1;

/// What the supervisor is waiting for.
#[derive(Clone, Copy, Debug, PartialEq, Eq, Structural)]
pub enum Stage {
    /// Nothing has happened yet.
    Idle,
    /// The launch configuration has been asked for.
    AwaitingConfig,
    /// The first start of the child has been asked for.
    Launching,
    /// The bounded wait on the control channel is under way.
    Waiting,
    /// The child's liveness has been asked for.
    Polling,
    /// The pause before a restart is under way.
    BackingOff,
    /// A restart of the child has been asked for.
    Relaunching,
    /// The termination of the child has been asked for.
    Terminating,
    /// Supervision has ended.
    Stopped,
}

impl Stage {
    /// The phase that a stage belongs to.
    pub open spec fn phase(self) -> Phase {
        match self {
            Stage::Idle | Stage::AwaitingConfig | Stage::Launching => Phase::Starting,
            Stage::Waiting | Stage::Polling | Stage::BackingOff | Stage::Relaunching => {
                Phase::Running
            },
            Stage::Terminating => Phase::Stopping,
            Stage::Stopped => Phase::Stopped,
        }
    }

    /// Whether the stage deals with a child, and so rests on an accepted
    /// launch configuration.
    pub open spec fn needs_config(self) -> bool {
        match self {
            Stage::Idle | Stage::AwaitingConfig | Stage::Stopped => false,
            _ => true,
        }
    }
}

/// How an attempt to start the child ended.
#[derive(Clone, Copy, Debug, PartialEq, Eq, Structural)]
pub enum SpawnOutcome {
    /// A child process was created.
    Started,
    /// The system refused to create the process.
    Failed,
}

/// What a liveness check found.
#[derive(Clone, Copy, Debug, PartialEq, Eq, Structural)]
pub enum Liveness {
    /// The child is still running.
    Alive,
    /// The child has exited.
    Exited,
}

/// The outcome of an effect, reported back to the supervisor.
#[derive(Debug, PartialEq, Eq)]
pub enum Event {
    /// The service has been started.
    Start,
    /// The launch configuration was read, or could not be.
    Loaded(Result<LaunchConfig, ConfigError>),
    /// An attempt to start the child has ended.
    Spawned(SpawnOutcome),
    /// The bounded wait on the control channel has ended.
    Waited(WaitOutcome),
    /// The child's liveness has been checked.
    Polled(Liveness),
    /// The pause before a restart is over.
    Slept,
    /// The child was asked to terminate; the request may have failed.
    Killed { succeeded: bool },
}

/// Mathematical content of an [`Event`].
pub enum EventView {
    Start,
    Loaded(Result<LaunchConfigView, ConfigError>),
    Spawned(SpawnOutcome),
    Waited(WaitOutcome),
    Polled(Liveness),
    Slept,
    Killed { succeeded: bool },
}

impl View for Event {
    type V = EventView;

    open spec fn view(&self) -> EventView {
        match *self {
            Event::Start => EventView::Start,
            Event::Loaded(outcome) => EventView::Loaded(outcome_view(outcome)),
            Event::Spawned(outcome) => EventView::Spawned(outcome),
            Event::Waited(outcome) => EventView::Waited(outcome),
            Event::Polled(liveness) => EventView::Polled(liveness),
            Event::Slept => EventView::Slept,
            Event::Killed { succeeded } => EventView::Killed { succeeded },
        }
    }
}

/// An effect for the caller to carry out. Each command but the last two
/// is answered by the event that tells its outcome.
#[derive(Clone, Copy, Debug, PartialEq, Eq, Structural)]
pub enum Command {
    /// Read the launch configuration; answered by [`Event::Loaded`].
    LoadConfig,
    /// Start the child; answered by [`Event::Spawned`].
    Spawn,
    /// Wait on the control channel for at most this long; answered by
    /// [`Event::Waited`].
    Wait { seconds: u64 },
    /// Check without blocking whether the child has exited; answered by
    /// [`Event::Polled`].
    Poll,
    /// Pause for this long; answered by [`Event::Slept`].
    Sleep { seconds: u64 },
    /// Terminate the child at once; answered by [`Event::Killed`].
    Kill,
    /// Leave the supervision loop.
    Exit,
    /// Do nothing: the event was not awaited and has been passed over.
    Nothing,
}

/// The supervisor's answer to one event.
#[derive(Clone, Copy, Debug, PartialEq, Eq, Structural)]
pub struct Step {
    /// A status record to send before the command is carried out.
    pub report: Option<StatusReport>,
    /// The command to carry out.
    pub command: Command,
}

impl Step {
    /// A step that sends no status record.
    pub open spec fn quiet(command: Command) -> Step {
        Step { report: None, command }
    }

    /// A step that announces a phase first.
    pub open spec fn announcing(state: Phase, command: Command) -> Step {
        Step { report: Some(StatusReport::announcing(state)), command }
    }

    /// The step that ends supervision: the stop is announced, always with
    /// the same record, and the loop is left.
    pub open spec fn last() -> Step {
        Step::announcing(Phase::Stopped, Command::Exit)
    }
}

/// Mathematical content of a [`Supervisor`].
pub struct SupervisorView {
    /// What the supervisor is waiting for.
    pub stage: Stage,
    /// The launch configuration, once one has been accepted.
    pub config: Option<LaunchConfigView>,
}

impl SupervisorView {
    /// The supervisor before anything has happened.
    pub open spec fn initial() -> SupervisorView {
        SupervisorView { stage: Stage::Idle, config: None }
    }

    /// A child is only ever dealt with under an accepted configuration.
    pub open spec fn wf(self) -> bool {
        self.stage.needs_config() ==> self.config is Some
    }

    /// The same supervisor at another stage.
    pub open spec fn at(self, stage: Stage) -> SupervisorView {
        SupervisorView { stage, ..self }
    }

    /// Whether the child is started again after it exits.
    pub open spec fn restarts(self) -> bool {
        self.config matches Some(config) && config.restart_on_exit
    }

    /// The phase the supervisor is in.
    pub open spec fn phase(self) -> Phase {
        self.stage.phase()
    }
}

/// The transition function: the supervisor after `event`, and its answer.
///
/// An event that the current stage does not await changes nothing and is
/// answered by [`Command::Nothing`]. In particular nothing moves a
/// stopped supervisor.
pub open spec fn next(s: SupervisorView, event: EventView) -> (SupervisorView, Step) {
    match s.stage {
        Stage::Idle => match event {
            EventView::Start => (
                s.at(Stage::AwaitingConfig),
                Step::announcing(Phase::Starting, Command::LoadConfig),
            ),
            _ => (s, Step::quiet(Command::Nothing)),
        },
        Stage::AwaitingConfig => match event {
            EventView::Loaded(Ok(config)) => (
                SupervisorView { stage: Stage::Launching, config: Some(config) },
                Step::quiet(Command::Spawn),
            ),
            EventView::Loaded(Err(_)) => (s.at(Stage::Stopped), Step::last()),
            _ => (s, Step::quiet(Command::Nothing)),
        },
        Stage::Launching => match event {
            EventView::Spawned(SpawnOutcome::Started) => (
                s.at(Stage::Waiting),
                Step::announcing(Phase::Running, Command::Wait { seconds: POLL_INTERVAL_SECONDS }),
            ),
            EventView::Spawned(SpawnOutcome::Failed) => (s.at(Stage::Stopped), Step::last()),
            _ => (s, Step::quiet(Command::Nothing)),
        },
        Stage::Waiting => match event {
            EventView::Waited(outcome) => if outcome.asks_to_stop() {
                (s.at(Stage::Terminating), Step::quiet(Command::Kill))
            } else {
                (s.at(Stage::Polling), Step::quiet(Command::Poll))
            },
            _ => (s, Step::quiet(Command::Nothing)),
        },
        Stage::Polling => match event {
            EventView::Polled(Liveness::Alive) => (
                s.at(Stage::Waiting),
                Step::quiet(Command::Wait { seconds: POLL_INTERVAL_SECONDS }),
            ),
            EventView::Polled(Liveness::Exited) => if s.restarts() {
                (
                    s.at(Stage::BackingOff),
                    Step::quiet(Command::Sleep { seconds: RESTART_DELAY_SECONDS }),
                )
            } else {
                (s.at(Stage::Stopped), Step::last())
            },
            _ => (s, Step::quiet(Command::Nothing)),
        },
        Stage::BackingOff => match event {
            EventView::Slept => (s.at(Stage::Relaunching), Step::quiet(Command::Spawn)),
            _ => (s, Step::quiet(Command::Nothing)),
        },
        Stage::Relaunching => match event {
            EventView::Spawned(SpawnOutcome::Started) => (
                s.at(Stage::Waiting),
                Step::quiet(Command::Wait { seconds: POLL_INTERVAL_SECONDS }),
            ),
            EventView::Spawned(SpawnOutcome::Failed) => (s.at(Stage::Stopped), Step::last()),
            _ => (s, Step::quiet(Command::Nothing)),
        },
        Stage::Terminating => match event {
            EventView::Killed { .. } => (s.at(Stage::Stopped), Step::last()),
            _ => (s, Step::quiet(Command::Nothing)),
        },
        Stage::Stopped => (s, Step::quiet(Command::Nothing)),
    }
}

/// Supervises one child process: owns the launch configuration and
/// decides what is done next.
#[derive(Debug)]
pub struct Supervisor {
    stage: Stage,
    config: Option<LaunchConfig>,
}

impl View for Supervisor {
    type V = SupervisorView;

    closed spec fn view(&self) -> SupervisorView {
        SupervisorView { stage: self.stage, config: outcome_config(self.config) }
    }
}

/// Mathematical content of an optional configuration.
pub open spec fn outcome_config(config: Option<LaunchConfig>) -> Option<LaunchConfigView> {
    match config {
        Some(config) => Some(config@),
        None => None,
    }
}

impl Supervisor {
    #[verifier::type_invariant]
    spec fn configured_when_needed(&self) -> bool {
        self.stage.needs_config() ==> self.config is Some
    }

    /// A supervisor for which nothing has happened yet.
    pub fn new() -> (supervisor: Supervisor)
        ensures
            supervisor@ == SupervisorView::initial(),
            supervisor@.wf(),
    {
        Supervisor { stage: Stage::Idle, config: None }
    }

    /// What the supervisor is waiting for.
    pub fn stage(&self) -> (stage: Stage)
        ensures
            stage == self@.stage,
    {
        self.stage
    }

    /// The phase the supervisor is in.
    pub fn phase(&self) -> (phase: Phase)
        ensures
            phase == self@.phase(),
    {
        match self.stage {
            Stage::Idle | Stage::AwaitingConfig | Stage::Launching => Phase::Starting,
            Stage::Waiting | Stage::Polling | Stage::BackingOff | Stage::Relaunching => {
                Phase::Running
            },
            Stage::Terminating => Phase::Stopping,
            Stage::Stopped => Phase::Stopped,
        }
    }

    /// Whether supervision has ended.
    pub fn is_stopped(&self) -> (stopped: bool)
        ensures
            stopped == (self@.stage == Stage::Stopped),
    {
        match self.stage {
            Stage::Stopped => true,
            _ => false,
        }
    }

    /// The launch configuration, once one has been accepted. It is there
    /// whenever a child is to be started.
    pub fn config(&self) -> (config: Option<&LaunchConfig>)
        ensures
            self@.wf(),
            match config {
                Some(config) => self@.config == Some(config@),
                None => self@.config is None,
            },
    {
        proof {
            use_type_invariant(self);
        }
        self.config.as_ref()
    }

    /// Whether the child is started again after it exits.
    pub fn restarts(&self) -> (restart: bool)
        ensures
            restart == self@.restarts(),
    {
        match &self.config {
            Some(config) => config.restart_on_exit(),
            None => false,
        }
    }

    /// Takes the outcome of the last command and answers with the next:
    /// the transition that [`next`] defines.
    pub fn step(&mut self, event: Event) -> (step: Step)
        ensures
            (final(self)@, step) == next(old(self)@, event@),
            final(self)@.wf(),
    {
        proof {
            use_type_invariant(&*self);
        }
        let ignored = Step { report: None, command: Command::Nothing };
        let stopped = Step {
            report: Some(StatusReport::announce(Phase::Stopped)),
            command: Command::Exit,
        };
        let wait = Command::Wait { seconds: POLL_INTERVAL_SECONDS };
        match self.stage {
            Stage::Idle => match event {
                Event::Start => {
                    self.stage = Stage::AwaitingConfig;
                    Step {
                        report: Some(StatusReport::announce(Phase::Starting)),
                        command: Command::LoadConfig,
                    }
                },
                _ => ignored,
            },
            Stage::AwaitingConfig => match event {
                Event::Loaded(Ok(config)) => {
                    self.config = Some(config);
                    self.stage = Stage::Launching;
                    Step { report: None, command: Command::Spawn }
                },
                Event::Loaded(Err(_)) => {
                    self.stage = Stage::Stopped;
                    stopped
                },
                _ => ignored,
            },
            Stage::Launching => match event {
                Event::Spawned(SpawnOutcome::Started) => {
                    self.stage = Stage::Waiting;
                    Step { report: Some(StatusReport::announce(Phase::Running)), command: wait }
                },
                Event::Spawned(SpawnOutcome::Failed) => {
                    self.stage = Stage::Stopped;
                    stopped
                },
                _ => ignored,
            },
            Stage::Waiting => match event {
                Event::Waited(outcome) => {
                    if outcome.requests_stop() {
                        self.stage = Stage::Terminating;
                        Step { report: None, command: Command::Kill }
                    } else {
                        self.stage = Stage::Polling;
                        Step { report: None, command: Command::Poll }
                    }
                },
                _ => ignored,
            },
            Stage::Polling => match event {
                Event::Polled(Liveness::Alive) => {
                    self.stage = Stage::Waiting;
                    Step { report: None, command: wait }
                },
                Event::Polled(Liveness::Exited) => {
                    if self.restarts() {
                        self.stage = Stage::BackingOff;
                        Step {
                            report: None,
                            command: Command::Sleep { seconds: RESTART_DELAY_SECONDS },
                        }
                    } else {
                        self.stage = Stage::Stopped;
                        stopped
                    }
                },
                _ => ignored,
            },
            Stage::BackingOff => match event {
                Event::Slept => {
                    self.stage = Stage::Relaunching;
                    Step { report: None, command: Command::Spawn }
                },
                _ => ignored,
            },
            Stage::Relaunching => match event {
                Event::Spawned(SpawnOutcome::Started) => {
                    self.stage = Stage::Waiting;
                    Step { report: None, command: wait }
                },
                Event::Spawned(SpawnOutcome::Failed) => {
                    self.stage = Stage::Stopped;
                    stopped
                },
                _ => ignored,
            },
            Stage::Terminating => match event {
                Event::Killed { .. } => {
                    self.stage = Stage::Stopped;
                    stopped
                },
                _ => ignored,
            },
            Stage::Stopped => ignored,
        }
    }
}

} // verus!
