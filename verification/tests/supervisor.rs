use srvany_rs::config::{ConfigError, LaunchConfig, Lookups};
use srvany_rs::control::WaitOutcome;
use srvany_rs::status::{Phase, StatusReport};
use srvany_rs::supervisor::{
    Command, Event, Liveness, SpawnOutcome, Stage, Step, Supervisor, POLL_INTERVAL_SECONDS,
    RESTART_DELAY_SECONDS,
};

fn lookups(path: Option<&str>, restart: bool) -> Lookups {
    Lookups {
        executable_path: path.map(|p| p.to_string()),
        working_directory: None,
        argument_string: None,
        environment: None,
        restart_on_exit: Some(if restart { 1 } else { 0 }),
    }
}

fn config(path: &str, restart: bool) -> LaunchConfig {
    LaunchConfig::load(lookups(Some(path), restart)).unwrap()
}

fn quiet(command: Command) -> Step {
    Step { report: None, command }
}

fn announcing(state: Phase, command: Command) -> Step {
    Step { report: Some(StatusReport::announce(state)), command }
}

fn last_step() -> Step {
    announcing(Phase::Stopped, Command::Exit)
}

const WAIT: Command = Command::Wait { seconds: 1 };
const SLEEP: Command = Command::Sleep { seconds: 1 };

/// What the outside world does in one run: the answers it gives, in order,
/// to each kind of command.
struct World {
    lookups: Lookups,
    spawns: Vec<SpawnOutcome>,
    waits: Vec<WaitOutcome>,
    polls: Vec<Liveness>,
}

/// What was seen of one run.
struct Seen {
    commands: Vec<Command>,
    reports: Vec<Phase>,
    children: usize,
    stage: Stage,
}

/// Carries out the supervisor's commands against `world` until it asks to
/// leave the loop or the world has no answer left.
fn drive(world: World) -> Seen {
    let World { lookups, spawns, waits, polls } = world;
    let mut lookups = Some(lookups);
    let mut spawns = spawns.into_iter();
    let mut waits = waits.into_iter();
    let mut polls = polls.into_iter();
    let mut seen =
        Seen { commands: Vec::new(), reports: Vec::new(), children: 0, stage: Stage::Idle };
    let mut supervisor = Supervisor::new();
    let mut step = supervisor.step(Event::Start);
    loop {
        if let Some(report) = step.report {
            assert_eq!(report, StatusReport::announce(report.state));
            seen.reports.push(report.state);
        }
        seen.commands.push(step.command);
        let event = match step.command {
            Command::LoadConfig => Event::Loaded(LaunchConfig::load(lookups.take().unwrap())),
            Command::Spawn => {
                assert!(supervisor.config().is_some());
                match spawns.next() {
                    Some(outcome) => {
                        if outcome == SpawnOutcome::Started {
                            seen.children += 1;
                        }
                        Event::Spawned(outcome)
                    }
                    None => break,
                }
            }
            Command::Wait { seconds } => {
                assert_eq!(seconds, 1);
                match waits.next() {
                    Some(outcome) => Event::Waited(outcome),
                    None => break,
                }
            }
            Command::Poll => match polls.next() {
                Some(liveness) => Event::Polled(liveness),
                None => break,
            },
            Command::Sleep { seconds } => {
                assert_eq!(seconds, 1);
                Event::Slept
            }
            Command::Kill => Event::Killed { succeeded: true },
            Command::Exit => break,
            Command::Nothing => panic!("an awaited event was passed over"),
        };
        step = supervisor.step(event);
    }
    seen.stage = supervisor.stage();
    seen
}

fn count(commands: &[Command], wanted: Command) -> usize {
    commands.iter().filter(|c| **c == wanted).count()
}

#[test]
fn intervals_are_one_second() {
    assert_eq!(POLL_INTERVAL_SECONDS, 1);
    assert_eq!(RESTART_DELAY_SECONDS, 1);
}

#[test]
fn new_supervisor_is_idle() {
    let supervisor = Supervisor::new();
    assert_eq!(supervisor.stage(), Stage::Idle);
    assert_eq!(supervisor.phase(), Phase::Starting);
    assert!(!supervisor.is_stopped());
    assert!(supervisor.config().is_none());
    assert!(!supervisor.restarts());
}

#[test]
fn start_announces_and_asks_for_configuration() {
    let mut supervisor = Supervisor::new();
    assert_eq!(
        supervisor.step(Event::Start),
        announcing(Phase::Starting, Command::LoadConfig)
    );
    assert_eq!(supervisor.stage(), Stage::AwaitingConfig);
    assert_eq!(supervisor.phase(), Phase::Starting);
}

#[test]
fn missing_configuration_stops_without_launch() {
    let seen = drive(World {
        lookups: lookups(None, true),
        spawns: vec![SpawnOutcome::Started],
        waits: vec![],
        polls: vec![],
    });
    assert_eq!(seen.commands, vec![Command::LoadConfig, Command::Exit]);
    assert_eq!(seen.reports, vec![Phase::Starting, Phase::Stopped]);
    assert_eq!(seen.children, 0);
    assert_eq!(seen.stage, Stage::Stopped);
}

#[test]
fn configuration_error_is_answered_by_the_last_step() {
    let mut supervisor = Supervisor::new();
    supervisor.step(Event::Start);
    assert_eq!(supervisor.step(Event::Loaded(Err(ConfigError::Missing))), last_step());
    assert!(supervisor.is_stopped());
    assert_eq!(supervisor.phase(), Phase::Stopped);
    assert!(supervisor.config().is_none());
}

#[test]
fn failed_first_launch_stops() {
    let seen = drive(World {
        lookups: lookups(Some("nowhere.bin"), true),
        spawns: vec![SpawnOutcome::Failed, SpawnOutcome::Started],
        waits: vec![],
        polls: vec![],
    });
    assert_eq!(seen.commands, vec![Command::LoadConfig, Command::Spawn, Command::Exit]);
    assert_eq!(seen.reports, vec![Phase::Starting, Phase::Stopped]);
    assert_eq!(seen.children, 0);
    assert_eq!(seen.stage, Stage::Stopped);
}

#[test]
fn scenario_child_exits_without_restart() {
    let seen = drive(World {
        lookups: lookups(Some("echo.bin"), false),
        spawns: vec![SpawnOutcome::Started, SpawnOutcome::Started],
        waits: vec![WaitOutcome::TimedOut, WaitOutcome::TimedOut],
        polls: vec![Liveness::Exited],
    });
    assert_eq!(
        seen.commands,
        vec![Command::LoadConfig, Command::Spawn, WAIT, Command::Poll, Command::Exit]
    );
    assert_eq!(seen.children, 1);
    assert_eq!(seen.stage, Stage::Stopped);
    assert_eq!(seen.reports.iter().filter(|p| **p == Phase::Running).count(), 1);
    assert_eq!(seen.reports.iter().filter(|p| **p == Phase::Stopped).count(), 1);
    assert_eq!(seen.reports, vec![Phase::Starting, Phase::Running, Phase::Stopped]);
}

#[test]
fn scenario_child_exits_three_times_with_restart() {
    let seen = drive(World {
        lookups: lookups(Some("loop.bin"), true),
        spawns: vec![SpawnOutcome::Started, SpawnOutcome::Started, SpawnOutcome::Started],
        waits: vec![WaitOutcome::TimedOut, WaitOutcome::TimedOut, WaitOutcome::TimedOut],
        polls: vec![Liveness::Exited, Liveness::Exited, Liveness::Exited],
    });
    assert_eq!(
        seen.commands,
        vec![
            Command::LoadConfig,
            Command::Spawn,
            WAIT,
            Command::Poll,
            SLEEP,
            Command::Spawn,
            WAIT,
            Command::Poll,
            SLEEP,
            Command::Spawn,
            WAIT,
            Command::Poll,
            SLEEP,
            Command::Spawn,
        ]
    );
    // Three children have run and exited; the fourth start is asked for
    // and not yet carried out.
    assert_eq!(seen.children, 3);
    let third_exit = seen.commands.len() - 2;
    assert_eq!(count(&seen.commands[..third_exit], Command::Spawn), 3);
    for (i, command) in seen.commands.iter().enumerate() {
        if *command == Command::Spawn && i > 1 {
            assert_eq!(seen.commands[i - 1], Command::Sleep { seconds: 1 });
        }
    }
    assert_eq!(seen.reports, vec![Phase::Starting, Phase::Running]);
    assert_eq!(seen.stage, Stage::Relaunching);
}

#[test]
fn scenario_stop_while_child_runs() {
    let seen = drive(World {
        lookups: lookups(Some("loop.bin"), true),
        spawns: vec![SpawnOutcome::Started],
        waits: vec![WaitOutcome::TimedOut, WaitOutcome::StopSignal],
        polls: vec![Liveness::Alive],
    });
    assert_eq!(
        seen.commands,
        vec![
            Command::LoadConfig,
            Command::Spawn,
            WAIT,
            Command::Poll,
            WAIT,
            Command::Kill,
            Command::Exit,
        ]
    );
    assert_eq!(seen.reports, vec![Phase::Starting, Phase::Running, Phase::Stopped]);
    assert_eq!(seen.stage, Stage::Stopped);
    // Nothing stands between the signal and the stop but the termination.
    let signal = seen.commands.iter().position(|c| *c == Command::Kill).unwrap();
    assert_eq!(seen.commands[signal + 1], Command::Exit);
}

#[test]
fn failed_restart_is_final() {
    let seen = drive(World {
        lookups: lookups(Some("loop.bin"), true),
        spawns: vec![SpawnOutcome::Started, SpawnOutcome::Failed, SpawnOutcome::Started],
        waits: vec![WaitOutcome::TimedOut, WaitOutcome::TimedOut],
        polls: vec![Liveness::Exited, Liveness::Exited],
    });
    assert_eq!(
        seen.commands,
        vec![
            Command::LoadConfig,
            Command::Spawn,
            WAIT,
            Command::Poll,
            SLEEP,
            Command::Spawn,
            Command::Exit,
        ]
    );
    assert_eq!(seen.children, 1);
    assert_eq!(seen.reports, vec![Phase::Starting, Phase::Running, Phase::Stopped]);
    assert_eq!(seen.stage, Stage::Stopped);
}

#[test]
fn restart_is_not_announced_again() {
    let seen = drive(World {
        lookups: lookups(Some("loop.bin"), true),
        spawns: vec![SpawnOutcome::Started, SpawnOutcome::Started],
        waits: vec![WaitOutcome::TimedOut, WaitOutcome::StopSignal],
        polls: vec![Liveness::Exited],
    });
    assert_eq!(seen.children, 2);
    assert_eq!(seen.reports, vec![Phase::Starting, Phase::Running, Phase::Stopped]);
    assert_eq!(count(&seen.commands, SLEEP), 1);
    assert_eq!(count(&seen.commands, Command::Kill), 1);
}

#[test]
fn one_replacement_per_exit() {
    let seen = drive(World {
        lookups: lookups(Some("loop.bin"), true),
        spawns: vec![SpawnOutcome::Started; 6],
        waits: vec![
            WaitOutcome::TimedOut,
            WaitOutcome::TimedOut,
            WaitOutcome::TimedOut,
            WaitOutcome::TimedOut,
            WaitOutcome::TimedOut,
            WaitOutcome::StopSignal,
        ],
        polls: vec![
            Liveness::Alive,
            Liveness::Exited,
            Liveness::Alive,
            Liveness::Alive,
            Liveness::Exited,
        ],
    });
    assert_eq!(count(&seen.commands, Command::Spawn), 3);
    assert_eq!(count(&seen.commands, SLEEP), 2);
    assert_eq!(seen.children, 3);
    assert_eq!(seen.stage, Stage::Stopped);
}

#[test]
fn living_child_is_polled_every_interval() {
    let seen = drive(World {
        lookups: lookups(Some("loop.bin"), false),
        spawns: vec![SpawnOutcome::Started],
        waits: vec![WaitOutcome::TimedOut; 3],
        polls: vec![Liveness::Alive; 3],
    });
    assert_eq!(
        seen.commands,
        vec![
            Command::LoadConfig,
            Command::Spawn,
            WAIT,
            Command::Poll,
            WAIT,
            Command::Poll,
            WAIT,
            Command::Poll,
            WAIT,
        ]
    );
    assert_eq!(seen.stage, Stage::Waiting);
}

#[test]
fn stop_takes_precedence_over_exit() {
    // The child has exited and restarting is on, but the wait ends with a
    // stop signal: liveness is not looked at.
    let mut supervisor = Supervisor::new();
    supervisor.step(Event::Start);
    supervisor.step(Event::Loaded(Ok(config("loop.bin", true))));
    supervisor.step(Event::Spawned(SpawnOutcome::Started));
    assert_eq!(supervisor.stage(), Stage::Waiting);
    assert_eq!(
        supervisor.step(Event::Waited(WaitOutcome::StopSignal)),
        quiet(Command::Kill)
    );
    assert_eq!(supervisor.phase(), Phase::Stopping);
    // The exit that was pending changes nothing any more.
    assert_eq!(
        supervisor.step(Event::Polled(Liveness::Exited)),
        quiet(Command::Nothing)
    );
    assert_eq!(supervisor.stage(), Stage::Terminating);
    assert_eq!(supervisor.step(Event::Killed { succeeded: true }), last_step());
    assert_eq!(supervisor.stage(), Stage::Stopped);
}

#[test]
fn closed_channel_stops_like_a_signal() {
    let seen = drive(World {
        lookups: lookups(Some("loop.bin"), true),
        spawns: vec![SpawnOutcome::Started],
        waits: vec![WaitOutcome::Closed],
        polls: vec![],
    });
    assert_eq!(
        seen.commands,
        vec![Command::LoadConfig, Command::Spawn, WAIT, Command::Kill, Command::Exit]
    );
    assert_eq!(seen.reports, vec![Phase::Starting, Phase::Running, Phase::Stopped]);
}

#[test]
fn failed_termination_still_stops() {
    let mut supervisor = Supervisor::new();
    supervisor.step(Event::Start);
    supervisor.step(Event::Loaded(Ok(config("loop.bin", false))));
    supervisor.step(Event::Spawned(SpawnOutcome::Started));
    supervisor.step(Event::Waited(WaitOutcome::StopSignal));
    assert_eq!(supervisor.step(Event::Killed { succeeded: false }), last_step());
    assert!(supervisor.is_stopped());
}

#[test]
fn stopped_supervisor_passes_over_everything() {
    let mut supervisor = Supervisor::new();
    supervisor.step(Event::Start);
    supervisor.step(Event::Loaded(Ok(config("echo.bin", true))));
    supervisor.step(Event::Spawned(SpawnOutcome::Started));
    supervisor.step(Event::Waited(WaitOutcome::StopSignal));
    supervisor.step(Event::Killed { succeeded: true });
    assert!(supervisor.is_stopped());
    let late = vec![
        Event::Start,
        Event::Loaded(Ok(config("other.bin", true))),
        Event::Loaded(Err(ConfigError::Missing)),
        Event::Spawned(SpawnOutcome::Started),
        Event::Spawned(SpawnOutcome::Failed),
        Event::Waited(WaitOutcome::StopSignal),
        Event::Waited(WaitOutcome::StopSignal),
        Event::Waited(WaitOutcome::Closed),
        Event::Waited(WaitOutcome::TimedOut),
        Event::Polled(Liveness::Exited),
        Event::Polled(Liveness::Alive),
        Event::Slept,
        Event::Killed { succeeded: true },
        Event::Killed { succeeded: false },
    ];
    for event in late {
        assert_eq!(supervisor.step(event), quiet(Command::Nothing));
        assert_eq!(supervisor.stage(), Stage::Stopped);
        assert_eq!(supervisor.config().unwrap().executable_path(), "echo.bin");
    }
}

#[test]
fn events_that_are_not_awaited_change_nothing() {
    let mut supervisor = Supervisor::new();
    assert_eq!(supervisor.step(Event::Slept), quiet(Command::Nothing));
    assert_eq!(
        supervisor.step(Event::Loaded(Ok(config("early.bin", true)))),
        quiet(Command::Nothing)
    );
    assert_eq!(supervisor.stage(), Stage::Idle);
    assert!(supervisor.config().is_none());
    supervisor.step(Event::Start);
    assert_eq!(supervisor.step(Event::Start), quiet(Command::Nothing));
    assert_eq!(
        supervisor.step(Event::Spawned(SpawnOutcome::Started)),
        quiet(Command::Nothing)
    );
    assert_eq!(supervisor.stage(), Stage::AwaitingConfig);
    supervisor.step(Event::Loaded(Ok(config("loop.bin", true))));
    assert_eq!(
        supervisor.step(Event::Loaded(Ok(config("second.bin", false)))),
        quiet(Command::Nothing)
    );
    assert_eq!(supervisor.config().unwrap().executable_path(), "loop.bin");
    assert!(supervisor.restarts());
    supervisor.step(Event::Spawned(SpawnOutcome::Started));
    assert_eq!(supervisor.step(Event::Polled(Liveness::Exited)), quiet(Command::Nothing));
    assert_eq!(supervisor.stage(), Stage::Waiting);
    supervisor.step(Event::Waited(WaitOutcome::TimedOut));
    assert_eq!(
        supervisor.step(Event::Waited(WaitOutcome::StopSignal)),
        quiet(Command::Nothing)
    );
    assert_eq!(supervisor.stage(), Stage::Polling);
    supervisor.step(Event::Polled(Liveness::Exited));
    assert_eq!(supervisor.stage(), Stage::BackingOff);
    assert_eq!(
        supervisor.step(Event::Spawned(SpawnOutcome::Started)),
        quiet(Command::Nothing)
    );
    assert_eq!(supervisor.stage(), Stage::BackingOff);
    assert_eq!(supervisor.step(Event::Slept), quiet(Command::Spawn));
    assert_eq!(supervisor.stage(), Stage::Relaunching);
}

#[test]
fn phases_follow_stages() {
    let mut supervisor = Supervisor::new();
    assert_eq!(supervisor.phase(), Phase::Starting);
    supervisor.step(Event::Start);
    assert_eq!(supervisor.phase(), Phase::Starting);
    supervisor.step(Event::Loaded(Ok(config("loop.bin", true))));
    assert_eq!(supervisor.stage(), Stage::Launching);
    assert_eq!(supervisor.phase(), Phase::Starting);
    assert_eq!(
        supervisor.step(Event::Spawned(SpawnOutcome::Started)),
        announcing(Phase::Running, WAIT)
    );
    assert_eq!(supervisor.phase(), Phase::Running);
    supervisor.step(Event::Waited(WaitOutcome::TimedOut));
    assert_eq!(supervisor.phase(), Phase::Running);
    supervisor.step(Event::Polled(Liveness::Exited));
    assert_eq!(supervisor.phase(), Phase::Running);
    supervisor.step(Event::Slept);
    assert_eq!(supervisor.phase(), Phase::Running);
    assert_eq!(supervisor.step(Event::Spawned(SpawnOutcome::Started)), quiet(WAIT));
    supervisor.step(Event::Waited(WaitOutcome::Closed));
    assert_eq!(supervisor.phase(), Phase::Stopping);
    supervisor.step(Event::Killed { succeeded: true });
    assert_eq!(supervisor.phase(), Phase::Stopped);
}

#[test]
fn replay_gives_one_answer_for_each_event() {
    let mut supervisor = Supervisor::new();
    let steps = srvany_rs::trace::replay(
        &mut supervisor,
        vec![
            Event::Start,
            Event::Loaded(Ok(config("loop.bin", true))),
            Event::Spawned(SpawnOutcome::Started),
            Event::Slept,
            Event::Waited(WaitOutcome::TimedOut),
            Event::Polled(Liveness::Exited),
            Event::Slept,
            Event::Spawned(SpawnOutcome::Started),
            Event::Waited(WaitOutcome::Closed),
            Event::Killed { succeeded: false },
            Event::Waited(WaitOutcome::StopSignal),
        ],
    );
    assert_eq!(
        steps,
        vec![
            announcing(Phase::Starting, Command::LoadConfig),
            quiet(Command::Spawn),
            announcing(Phase::Running, WAIT),
            quiet(Command::Nothing),
            quiet(Command::Poll),
            quiet(SLEEP),
            quiet(Command::Spawn),
            quiet(WAIT),
            quiet(Command::Kill),
            last_step(),
            quiet(Command::Nothing),
        ]
    );
    assert_eq!(supervisor.stage(), Stage::Stopped);
}

#[test]
fn replay_of_nothing_changes_nothing() {
    let mut supervisor = Supervisor::new();
    assert_eq!(srvany_rs::trace::replay(&mut supervisor, Vec::new()), Vec::new());
    assert_eq!(supervisor.stage(), Stage::Idle);
}

#[test]
fn replay_goes_on_where_the_supervisor_stands() {
    let mut supervisor = Supervisor::new();
    supervisor.step(Event::Start);
    supervisor.step(Event::Loaded(Ok(config("echo.bin", false))));
    let steps = srvany_rs::trace::replay(
        &mut supervisor,
        vec![
            Event::Spawned(SpawnOutcome::Started),
            Event::Waited(WaitOutcome::TimedOut),
            Event::Polled(Liveness::Exited),
        ],
    );
    assert_eq!(steps, vec![announcing(Phase::Running, WAIT), quiet(Command::Poll), last_step()]);
    assert!(supervisor.is_stopped());
}
