//! Whole runs of the supervisor, and what holds of every run.
//!
//! A run is a sequence of events fed to the transition function one after
//! the other. Nothing is assumed of the events: they may come in any
//! order, fit the awaited outcome or not, and go on after the supervisor
//! has stopped.

use vstd::prelude::*;
use crate::config::{resolve, ConfigError, LaunchConfigView, LookupsView};
use crate::control::WaitOutcome;
use crate::status::{Phase, StatusReport};
use crate::supervisor::{
    next, Command, Event, EventView, Liveness, Stage, Step, Supervisor, SupervisorView,
    RESTART_DELAY_SECONDS,
};

verus! {

/// The supervisor after it has taken `events` in order, starting as `s`.
pub open spec fn run(s: SupervisorView, events: Seq<EventView>) -> SupervisorView
    decreases events.len(),
{
    if events.len() == 0 {
        s
    } else {
        next(run(s, events.drop_last()), events.last()).0
    }
}

/// The answers given along the way, one for each event.
pub open spec fn answers(s: SupervisorView, events: Seq<EventView>) -> Seq<Step>
    decreases events.len(),
{
    if events.len() == 0 {
        Seq::empty()
    } else {
        answers(s, events.drop_last()).push(next(run(s, events.drop_last()), events.last()).1)
    }
}

/// Mathematical content of a sequence of events.
pub open spec fn event_views(events: Seq<Event>) -> Seq<EventView> {
    events.map_values(|event: Event| event@)
}

/// Feeds a recorded sequence of events to the supervisor and collects its
/// answers: the run of [`run`], the answers of [`answers`].
pub fn replay(supervisor: &mut Supervisor, events: Vec<Event>) -> (steps: Vec<Step>)
    ensures
        final(supervisor)@ == run(old(supervisor)@, event_views(events@)),
        steps@ == answers(old(supervisor)@, event_views(events@)),
        steps@.len() == events@.len(),
        final(supervisor)@.wf(),
{
    let ghost all = event_views(events@);
    let ghost start = supervisor@;
    let mut steps: Vec<Step> = Vec::new();
    let _ = supervisor.config();
    assert(all.take(0) =~= Seq::<EventView>::empty());
    for event in it: events.into_iter()
        invariant
            all == event_views(it.seq()),
            supervisor@ == run(start, all.take(it.index() as int)),
            steps@ == answers(start, all.take(it.index() as int)),
            supervisor@.wf(),
    {
        let ghost i = it.index() as int;
        assert(all.take(i + 1).drop_last() =~= all.take(i));
        assert(all.take(i + 1).last() == event@);
        let step = supervisor.step(event);
        steps.push(step);
    }
    assert(all.take(all.len() as int) =~= all);
    proof {
        lemma_answers_len(start, all);
    }
    steps
}

/// How often `command` occurs among the answers.
pub open spec fn issued(steps: Seq<Step>, command: Command) -> nat
    decreases steps.len(),
{
    if steps.len() == 0 {
        0
    } else {
        issued(steps.drop_last(), command) + if steps.last().command == command {
            1nat
        } else {
            0nat
        }
    }
}

/// How often `state` is announced among the answers.
pub open spec fn announced(steps: Seq<Step>, state: Phase) -> nat
    decreases steps.len(),
{
    if steps.len() == 0 {
        0
    } else {
        announced(steps.drop_last(), state) + if steps.last().report == Some(
            StatusReport::announcing(state),
        ) {
            1nat
        } else {
            0nat
        }
    }
}

/// How often the child is found to have exited among the events.
pub open spec fn exits_seen(events: Seq<EventView>) -> nat
    decreases events.len(),
{
    if events.len() == 0 {
        0
    } else {
        exits_seen(events.drop_last()) + if events.last() == EventView::Polled(Liveness::Exited) {
            1nat
        } else {
            0nat
        }
    }
}

/// The command that pauses before a restart.
pub open spec fn delay() -> Command {
    Command::Sleep { seconds: RESTART_DELAY_SECONDS }
}

/// A run can be cut in two: the second part goes on where the first ended.
pub proof fn lemma_run_in_two(s: SupervisorView, first: Seq<EventView>, second: Seq<EventView>)
    ensures
        run(s, first + second) == run(run(s, first), second),
        answers(s, first + second) == answers(s, first) + answers(run(s, first), second),
    decreases second.len(),
{
    if second.len() > 0 {
        lemma_run_in_two(s, first, second.drop_last());
        assert((first + second).drop_last() =~= first + second.drop_last());
    }
}

/// Commands counted over two parts add up.
pub proof fn lemma_issued_adds_up(first: Seq<Step>, second: Seq<Step>, command: Command)
    ensures
        issued(first + second, command) == issued(first, command) + issued(second, command),
    decreases second.len(),
{
    if second.len() > 0 {
        lemma_issued_adds_up(first, second.drop_last(), command);
        assert((first + second).drop_last() =~= first + second.drop_last());
    }
}

/// Each answer is the answer of the supervisor as it stood after the
/// events before.
pub proof fn lemma_answer_at(s: SupervisorView, events: Seq<EventView>, i: int)
    requires
        0 <= i < events.len(),
    ensures
        answers(s, events).len() == events.len(),
        answers(s, events)[i] == next(run(s, events.take(i)), events[i]).1,
        answers(s, events).take(i) == answers(s, events.take(i)),
    decreases events.len(),
{
    lemma_answers_len(s, events);
    lemma_answers_len(s, events.drop_last());
    if i < events.len() - 1 {
        lemma_answer_at(s, events.drop_last(), i);
        assert(events.drop_last().take(i) =~= events.take(i));
    }
}

/// There is one answer for each event.
pub proof fn lemma_answers_len(s: SupervisorView, events: Seq<EventView>)
    ensures
        answers(s, events).len() == events.len(),
    decreases events.len(),
{
    if events.len() > 0 {
        lemma_answers_len(s, events.drop_last());
    }
}

/// Nothing moves a stopped supervisor: whatever arrives afterwards, it
/// stays as it is, sends no record and has nothing done. A stop that is
/// delivered again, or late, cannot reach the child.
pub proof fn lemma_stopped_is_final(s: SupervisorView, events: Seq<EventView>)
    requires
        s.stage == Stage::Stopped,
    ensures
        run(s, events) == s,
        forall|i: int|
            0 <= i < events.len() ==> #[trigger] answers(s, events)[i] == Step::quiet(
                Command::Nothing,
            ),
        forall|command: Command|
            command != Command::Nothing ==> #[trigger] issued(answers(s, events), command) == 0,
        forall|state: Phase| #[trigger] announced(answers(s, events), state) == 0,
    decreases events.len(),
{
    lemma_answers_len(s, events);
    if events.len() > 0 {
        lemma_stopped_is_final(s, events.drop_last());
        lemma_answers_len(s, events.drop_last());
        assert(answers(s, events).drop_last() =~= answers(s, events.drop_last()));
    }
    assert forall|command: Command| command != Command::Nothing implies #[trigger] issued(
        answers(s, events),
        command,
    ) == 0 by {
        if events.len() > 0 {
            assert(issued(answers(s, events.drop_last()), command) == 0);
        }
    }
    assert forall|state: Phase| #[trigger] announced(answers(s, events), state) == 0 by {
        if events.len() > 0 {
            assert(announced(answers(s, events.drop_last()), state) == 0);
        }
    }
}

/// Whether a restart has been decided and its start is still to come.
pub open spec fn restart_pending(stage: Stage) -> nat {
    if stage == Stage::BackingOff {
        1
    } else {
        0
    }
}

/// What is kept account of along every run from the start.
spec fn accounted(events: Seq<EventView>) -> bool {
    let s = run(SupervisorView::initial(), events);
    let steps = answers(SupervisorView::initial(), events);
    let spawns = issued(steps, Command::Spawn);
    let delays = issued(steps, delay());
    let kills = issued(steps, Command::Kill);
    &&& s.wf()
    &&& s.config is None ==> spawns == 0 && delays == 0 && kills == 0
    &&& s.config is Some ==> spawns + restart_pending(s.stage) == 1 + delays
    &&& s.stage == Stage::Idle || s.stage == Stage::AwaitingConfig ==> s.config is None
    &&& delays <= exits_seen(events)
    &&& delays > 0 || restart_pending(s.stage) > 0 || s.stage == Stage::Relaunching
        ==> s.restarts()
    &&& kills <= 1
    &&& s.stage != Stage::Terminating && s.stage != Stage::Stopped ==> kills == 0
    &&& announced(steps, Phase::Stopped) == if s.stage == Stage::Stopped {
        1nat
    } else {
        0nat
    }
    &&& announced(steps, Phase::Running) <= 1
    &&& s.stage.phase() == Phase::Starting ==> announced(steps, Phase::Running) == 0
    &&& announced(steps, Phase::Starting) == if s.stage == Stage::Idle {
        0nat
    } else {
        1nat
    }
    &&& announced(steps, Phase::Stopping) == 0
    &&& issued(steps, Command::LoadConfig) == if s.stage == Stage::Idle {
        0nat
    } else {
        1nat
    }
}

proof fn lemma_accounted(events: Seq<EventView>)
    ensures
        accounted(events),
    decreases events.len(),
{
    let start = SupervisorView::initial();
    if events.len() > 0 {
        let before = events.drop_last();
        lemma_accounted(before);
        lemma_answers_len(start, before);
        assert(answers(start, events).drop_last() =~= answers(start, before));
    }
}

/// A configuration, once accepted, stays the supervisor's for good: past
/// the stage that awaits it, no event replaces it.
pub proof fn lemma_config_is_kept(s: SupervisorView, events: Seq<EventView>)
    requires
        s.stage != Stage::Idle,
        s.stage != Stage::AwaitingConfig,
    ensures
        run(s, events).config == s.config,
        run(s, events).stage != Stage::Idle,
        run(s, events).stage != Stage::AwaitingConfig,
    decreases events.len(),
{
    if events.len() > 0 {
        lemma_config_is_kept(s, events.drop_last());
    }
}

/// Once the child's termination has been asked for, the run can only
/// end: whatever arrives, the child is not started again, no restart is
/// prepared and no second termination is asked for.
pub proof fn lemma_terminating_only_stops(s: SupervisorView, events: Seq<EventView>)
    requires
        s.stage == Stage::Terminating || s.stage == Stage::Stopped,
    ensures
        run(s, events).stage == Stage::Terminating || run(s, events).stage == Stage::Stopped,
        run(s, events).config == s.config,
        issued(answers(s, events), Command::Spawn) == 0,
        issued(answers(s, events), delay()) == 0,
        issued(answers(s, events), Command::Kill) == 0,
        announced(answers(s, events), Phase::Running) == 0,
    decreases events.len(),
{
    if events.len() > 0 {
        lemma_terminating_only_stops(s, events.drop_last());
        lemma_answers_len(s, events.drop_last());
        assert(answers(s, events).drop_last() =~= answers(s, events.drop_last()));
    }
}

/// Without an accepted configuration the launcher is never called on:
/// a run in which no configuration was loaded starts no child.
pub proof fn lemma_no_launch_without_config(events: Seq<EventView>)
    requires
        forall|i: int|
            0 <= i < events.len() ==> !(#[trigger] events[i] matches EventView::Loaded(Ok(_))),
    ensures
        run(SupervisorView::initial(), events).config is None,
        issued(answers(SupervisorView::initial(), events), Command::Spawn) == 0,
    decreases events.len(),
{
    lemma_accounted(events);
    if events.len() > 0 {
        lemma_no_launch_without_config(events.drop_last());
    }
}

/// A missing program path stops the supervisor before anything is
/// launched. Loading fails, the failure takes the supervisor from its
/// start straight to its end, with the stop announced, and no later event
/// brings a child to life.
pub proof fn lemma_missing_program_never_launches(lookups: LookupsView, rest: Seq<EventView>)
    requires
        lookups.executable_path is None,
    ensures
        resolve(lookups) == Err::<LaunchConfigView, ConfigError>(ConfigError::Missing),
        ({
            let events = seq![EventView::Start, EventView::Loaded(resolve(lookups))] + rest;
            let steps = answers(SupervisorView::initial(), events);
            &&& run(SupervisorView::initial(), events).stage == Stage::Stopped
            &&& steps[1] == Step::last()
            &&& issued(steps, Command::Spawn) == 0
            &&& announced(steps, Phase::Stopped) == 1
        }),
{
    let start = SupervisorView::initial();
    let head = seq![EventView::Start, EventView::Loaded(resolve(lookups))];
    let events = head + rest;
    lemma_head_of_two(start, head);
    lemma_run_in_two(start, head, rest);
    lemma_stopped_is_final(run(start, head), rest);
    lemma_accounted(events);
}

/// The first two steps of a run, written out.
proof fn lemma_head_of_two(s: SupervisorView, head: Seq<EventView>)
    requires
        head.len() == 2,
    ensures
        run(s, head) == next(next(s, head[0]).0, head[1]).0,
        answers(s, head) == seq![next(s, head[0]).1, next(next(s, head[0]).0, head[1]).1],
{
    let one = head.drop_last();
    assert(answers(s, one.drop_last()) =~= Seq::<Step>::empty());
    assert(answers(s, one) =~= seq![next(s, head[0]).1]);
    assert(answers(s, head) =~= seq![next(s, head[0]).1, next(next(s, head[0]).0, head[1]).1]);
}

/// Whenever the supervisor pauses, it pauses for the restart delay.
pub proof fn lemma_every_pause_is_the_delay(s: SupervisorView, event: EventView)
    ensures
        next(s, event).1.command matches Command::Sleep { seconds } ==> seconds
            == RESTART_DELAY_SECONDS,
{
}

/// Restarts are bounded by exits and paid for by delays. In every run
/// from the start, whatever the events: the child is started at most once
/// more than it was found to have exited; every start but the first has a
/// delay of its own that was taken before it; and a delay is only taken
/// where restarting is configured.
pub proof fn lemma_one_restart_per_exit(events: Seq<EventView>)
    ensures
        ({
            let s = run(SupervisorView::initial(), events);
            let steps = answers(SupervisorView::initial(), events);
            &&& issued(steps, Command::Spawn) <= 1 + exits_seen(events)
            &&& issued(steps, Command::Spawn) + restart_pending(s.stage) <= 1 + issued(
                steps,
                delay(),
            )
            &&& s.config is Some ==> issued(steps, Command::Spawn) + restart_pending(s.stage) == 1
                + issued(steps, delay())
            &&& issued(steps, delay()) <= exits_seen(events)
            &&& issued(steps, delay()) > 0 ==> s.restarts()
        }),
{
    lemma_accounted(events);
}

/// In `steps`, the answers to `events`, the delay taken at `j` for the
/// child's exit is the last thing done before `i`.
pub open spec fn delayed_since(events: Seq<EventView>, steps: Seq<Step>, j: int, i: int) -> bool {
    &&& 0 <= j < i <= events.len()
    &&& events[j] == EventView::Polled(Liveness::Exited)
    &&& steps[j].command == delay()
    &&& forall|k: int| j < k < i ==> (#[trigger] steps[k]).command == Command::Nothing
}

/// While a restart is pending, the delay for it is the last thing done.
proof fn lemma_pending_restart_is_delayed(events: Seq<EventView>)
    requires
        run(SupervisorView::initial(), events).stage == Stage::BackingOff,
    ensures
        exists|j: int|
            delayed_since(
                events,
                answers(SupervisorView::initial(), events),
                j,
                events.len() as int,
            ),
    decreases events.len(),
{
    let start = SupervisorView::initial();
    let steps = answers(start, events);
    if events.len() > 0 {
        let before = events.drop_last();
        let last = events.len() - 1;
        lemma_answers_len(start, before);
        if run(start, before).stage == Stage::BackingOff {
            lemma_pending_restart_is_delayed(before);
            let j = choose|j: int| delayed_since(before, answers(start, before), j, last);
            assert forall|k: int| j < k < events.len() implies (#[trigger] steps[k]).command
                == Command::Nothing by {}
            assert(delayed_since(events, steps, j, events.len() as int));
        } else {
            assert(delayed_since(events, steps, last, events.len() as int));
        }
    }
}

/// Every restart comes right after its delay. Where the answer to event
/// `i` starts the child and the child had been started before, that event
/// is the end of a pause; the pause was ordered for exactly the restart
/// delay, in answer to the child's exit; and nothing was done in between.
pub proof fn lemma_restart_follows_delay(events: Seq<EventView>, i: int)
    requires
        0 <= i < events.len(),
        answers(SupervisorView::initial(), events)[i].command == Command::Spawn,
        issued(answers(SupervisorView::initial(), events).take(i), Command::Spawn) > 0,
    ensures
        events[i] == EventView::Slept,
        exists|j: int| delayed_since(events, answers(SupervisorView::initial(), events), j, i),
{
    let start = SupervisorView::initial();
    let steps = answers(start, events);
    let prefix = events.take(i);
    lemma_answer_at(start, events, i);
    lemma_accounted(prefix);
    lemma_pending_restart_is_delayed(prefix);
    let j = choose|j: int| delayed_since(prefix, answers(start, prefix), j, prefix.len() as int);
    assert forall|k: int| j < k < i implies (#[trigger] steps[k]).command == Command::Nothing by {
        assert(steps[k] == steps.take(i)[k]);
    }
    assert(delayed_since(events, steps, j, i));
}

/// Without the restart flag exactly one child is ever started, and its
/// exit ends supervision. Once such a configuration is loaded, no run
/// starts a second child or takes a delay, whatever the events; and the
/// answer to the child's exit is the last step.
pub proof fn lemma_without_restart_one_child(config: LaunchConfigView, rest: Seq<EventView>)
    requires
        !config.restart_on_exit,
    ensures
        ({
            let events = seq![EventView::Start, EventView::Loaded(Ok(config))] + rest;
            let steps = answers(SupervisorView::initial(), events);
            &&& steps[1].command == Command::Spawn
            &&& issued(steps, Command::Spawn) == 1
            &&& issued(steps, delay()) == 0
        }),
        forall|s: SupervisorView|
            s.stage == Stage::Polling && s.config == Some(config) ==> #[trigger] next(
                s,
                EventView::Polled(Liveness::Exited),
            ) == (s.at(Stage::Stopped), Step::last()),
{
    let start = SupervisorView::initial();
    let head = seq![EventView::Start, EventView::Loaded(Ok(config))];
    let events = head + rest;
    lemma_head_of_two(start, head);
    lemma_run_in_two(start, head, rest);
    lemma_config_is_kept(run(start, head), rest);
    lemma_accounted(events);
}

/// A stop wins over an exit. The wait that ends with a stop signal, or
/// with the channel closed, is answered by terminating the child, and
/// liveness is not looked at in that cycle. From there on, whether the
/// child has exited or not and whether restarting is configured or not,
/// no child is started, no restart is prepared, and the child is not
/// terminated a second time.
pub proof fn lemma_stop_takes_precedence(
    s: SupervisorView,
    outcome: WaitOutcome,
    rest: Seq<EventView>,
)
    requires
        s.stage == Stage::Waiting,
        outcome.asks_to_stop(),
    ensures
        next(s, EventView::Waited(outcome)) == (
            s.at(Stage::Terminating),
            Step::quiet(Command::Kill),
        ),
        ({
            let events = seq![EventView::Waited(outcome)] + rest;
            let steps = answers(s, events);
            let end = run(s, events).stage;
            &&& end == Stage::Terminating || end == Stage::Stopped
            &&& issued(steps, Command::Kill) == 1
            &&& issued(steps, Command::Spawn) == 0
            &&& issued(steps, delay()) == 0
        }),
{
    let head = seq![EventView::Waited(outcome)];
    assert(answers(s, head.drop_last()) =~= Seq::<Step>::empty());
    let first = answers(s, head);
    assert(issued(first.drop_last(), Command::Kill) == 0);
    assert(issued(first.drop_last(), Command::Spawn) == 0);
    assert(issued(first.drop_last(), delay()) == 0);
    lemma_run_in_two(s, head, rest);
    lemma_terminating_only_stops(run(s, head), rest);
    lemma_issued_adds_up(answers(s, head), answers(run(s, head), rest), Command::Kill);
    lemma_issued_adds_up(answers(s, head), answers(run(s, head), rest), Command::Spawn);
    lemma_issued_adds_up(answers(s, head), answers(run(s, head), rest), delay());
}

/// The child is terminated at most once, and only on the way to the end.
pub proof fn lemma_child_is_terminated_once(events: Seq<EventView>)
    ensures
        ({
            let s = run(SupervisorView::initial(), events);
            let steps = answers(SupervisorView::initial(), events);
            &&& issued(steps, Command::Kill) <= 1
            &&& issued(steps, Command::Kill) == 1 ==> s.stage == Stage::Terminating || s.stage
                == Stage::Stopped
        }),
{
    lemma_accounted(events);
}

/// Each phase is announced at most once. The start is announced with the
/// first step; the running phase once, when the first child has started,
/// and not again on a restart; the stop exactly when the supervisor
/// stops, whichever way it got there. The stopping phase is never
/// announced.
pub proof fn lemma_each_phase_is_announced_once(events: Seq<EventView>)
    ensures
        ({
            let s = run(SupervisorView::initial(), events);
            let steps = answers(SupervisorView::initial(), events);
            &&& announced(steps, Phase::Starting) == if s.stage == Stage::Idle {
                0nat
            } else {
                1nat
            }
            &&& announced(steps, Phase::Running) <= 1
            &&& s.phase() == Phase::Starting ==> announced(steps, Phase::Running) == 0
            &&& announced(steps, Phase::Stopping) == 0
            &&& announced(steps, Phase::Stopped) == if s.stage == Stage::Stopped {
                1nat
            } else {
                0nat
            }
        }),
{
    lemma_accounted(events);
}

/// The configuration is asked for once: with the first step, and never
/// again, whatever follows.
pub proof fn lemma_config_is_loaded_once(events: Seq<EventView>)
    ensures
        issued(answers(SupervisorView::initial(), events), Command::LoadConfig) == if run(
            SupervisorView::initial(),
            events,
        ).stage == Stage::Idle {
            0nat
        } else {
            1nat
        },
{
    lemma_accounted(events);
}

/// The place of a phase in the supervisor's life.
pub open spec fn rank(phase: Phase) -> nat {
    match phase {
        Phase::Starting => 0,
        Phase::Running => 1,
        Phase::Stopping => 2,
        Phase::Stopped => 3,
    }
}

/// The supervisor never goes back to an earlier phase: from any state and
/// whatever arrives, it is starting, then running, then stopping, then
/// stopped, and it may skip phases on the way but not return to one.
pub proof fn lemma_phases_only_advance(s: SupervisorView, events: Seq<EventView>)
    ensures
        rank(s.phase()) <= rank(run(s, events).phase()),
    decreases events.len(),
{
    if events.len() > 0 {
        lemma_phases_only_advance(s, events.drop_last());
    }
}

/// A closed control channel is taken for a stop signal, at every stage.
pub proof fn lemma_closed_channel_stops(s: SupervisorView)
    ensures
        next(s, EventView::Waited(WaitOutcome::Closed)) == next(
            s,
            EventView::Waited(WaitOutcome::StopSignal),
        ),
{
}

/// Whether the child could be terminated makes no difference to the
/// supervisor: it stops either way.
pub proof fn lemma_failed_termination_is_passed_over(s: SupervisorView)
    ensures
        next(s, EventView::Killed { succeeded: false }) == next(
            s,
            EventView::Killed { succeeded: true },
        ),
{
}

} // verus!
