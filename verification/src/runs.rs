//! What holds of whole runs of the loop, whatever the hardware reports.

use crate::alarm::{blocked_ms, lemma_fire_pulses, AlarmSpec, TrainState};
use crate::controller::{blink, line_ids, ControllerState, Phase, Resume, Wiring};
use crate::display::GREETING;
use crate::line::{Action, Event, Line};
use crate::mode::Mode;
use crate::timer::{increment_ms, TimerState};
use vstd::prelude::*;

verus! {

/// The state after the loop has been told `events`, one after the other.
pub open spec fn run(start: ControllerState, events: Seq<Event>) -> ControllerState
    decreases events.len(),
{
    if events.len() == 0 {
        start
    } else {
        run(start, events.drop_last()).step(events.last()).0
    }
}

/// The actions the loop asked for while it was told `events`: one per event.
pub open spec fn actions(start: ControllerState, events: Seq<Event>) -> Seq<Action>
    decreases events.len(),
{
    if events.len() == 0 {
        Seq::<Action>::empty()
    } else {
        actions(start, events.drop_last()).push(
            run(start, events.drop_last()).step(events.last()).1,
        )
    }
}

/// Whether `event` answers what the loop is waiting for in `state`.
pub open spec fn answers(state: ControllerState, event: Event) -> bool {
    match state.phase {
        Phase::Ready | Phase::AwaitShow | Phase::Pulsing(_) => event == Event::Done,
        Phase::AwaitTrigger | Phase::AwaitSwitch | Phase::AwaitSmall | Phase::AwaitLarge(_) => event
            is Level,
        Phase::Halted => false,
    }
}

/// Whether `event` is a sample of the mode switch that rises over the last.
pub open spec fn sees_edge(state: ControllerState, event: Event) -> bool {
    state.phase == Phase::AwaitSwitch && event == Event::Level(true) && !state.detector.previous
}

/// How many rising edges of the mode switch the loop sees while it is told
/// `events`.
pub open spec fn edges_seen(start: ControllerState, events: Seq<Event>) -> nat
    decreases events.len(),
{
    if events.len() == 0 {
        0
    } else {
        edges_seen(start, events.drop_last()) + if sees_edge(
            run(start, events.drop_last()),
            events.last(),
        ) {
            1nat
        } else {
            0nat
        }
    }
}

/// A step keeps the lines, the alarm's settings and the display's geometry,
/// and leaves a well-formed loop well-formed.
pub proof fn lemma_step_keeps_wf(state: ControllerState, event: Event)
    requires
        state.wf(),
    ensures
        state.step(event).0.wf(),
        state.step(event).0.wiring == state.wiring,
        state.step(event).0.alarm == state.alarm,
        state.step(event).0.display.sda == state.display.sda,
        state.step(event).0.display.scl == state.display.scl,
        state.step(event).0.display.height == state.display.height,
        state.step(event).0.display.width == state.display.width,
{
}

/// A whole run keeps the lines and the alarm's settings, and leaves a
/// well-formed loop well-formed.
pub proof fn lemma_run_keeps_wf(start: ControllerState, events: Seq<Event>)
    requires
        start.wf(),
    ensures
        run(start, events).wf(),
        run(start, events).wiring == start.wiring,
        run(start, events).alarm == start.alarm,
    decreases events.len(),
{
    if events.len() > 0 {
        lemma_run_keeps_wf(start, events.drop_last());
        lemma_step_keeps_wf(run(start, events.drop_last()), events.last());
    }
}

/// The loop stops only for a reason: a well-formed loop that is told what it
/// waits for keeps going, unless the event is the tick after which the time
/// left no longer fits the timer. Every other event stops it, and once
/// stopped it stays stopped and asks for nothing else.
pub proof fn lemma_halts_only_on_failure(state: ControllerState, event: Event)
    requires
        state.wf(),
    ensures
        answers(state, event) && !(state.phase matches Phase::AwaitLarge(small) && event
            matches Event::Level(large) && state.timer.residual(increment_ms(small, large))
            > i64::MAX) ==> state.step(event).1 != Action::Halt && state.step(event).0.phase
            != Phase::Halted,
        !answers(state, event) ==> state.step(event) == state.halt(),
        state.phase == Phase::Halted ==> state.step(event) == (state, Action::Halt),
        state.step(event).1 == Action::Halt <==> state.step(event).0.phase == Phase::Halted,
{
    lemma_fire_pulses(state.alarm, state.wiring.alarm_out);
    lemma_fire_pulses(blink(), state.wiring.led);
    lemma_fire_pulses(state.train.spec, state.train.line);
}

/// The mode changes in a step exactly when the step sees a rising edge of
/// the mode switch, and then it flips.
pub proof fn lemma_step_mode(state: ControllerState, event: Event)
    ensures
        state.step(event).0.mode == if sees_edge(state, event) {
            state.mode.flipped()
        } else {
            state.mode
        },
{
}

/// Over any run, the mode is where it started after an even number of
/// rising edges of the mode switch and flipped after an odd number: one edge
/// flips it, a second flips it back, and without an edge it stays as it is,
/// however many iterations go by.
pub proof fn lemma_mode_follows_edges(start: ControllerState, events: Seq<Event>)
    ensures
        run(start, events).mode == if edges_seen(start, events) % 2 == 0 {
            start.mode
        } else {
            start.mode.flipped()
        },
        edges_seen(start, events) == 0 ==> run(start, events).mode == start.mode,
    decreases events.len(),
{
    if events.len() > 0 {
        lemma_mode_follows_edges(start, events.drop_last());
        lemma_step_mode(run(start, events.drop_last()), events.last());
    }
}

/// `count` reports that an action was done.
pub open spec fn dones(count: nat) -> Seq<Event> {
    Seq::new(count, |i: int| Event::Done)
}

/// A pulse sequence in progress is not cut short: while each action is
/// reported done, the loop asks for the pending actions in their order and
/// for nothing else.
pub proof fn lemma_pulses_run_on(state: ControllerState, then: Resume, count: nat)
    requires
        state.train.wf(),
        state.phase == Phase::Pulsing(then),
        count <= state.train.pending().len(),
    ensures
        run(state, dones(count)) == (ControllerState {
            train: TrainState { issued: state.train.issued + count, ..state.train },
            ..state
        }),
        actions(state, dones(count)) == state.train.pending().take(count as int),
    decreases count,
{
    if count == 0 {
        assert(actions(state, dones(count)) =~= state.train.pending().take(0));
    } else {
        let fewer = (count - 1) as nat;
        lemma_pulses_run_on(state, then, fewer);
        assert(dones(count).drop_last() =~= dones(fewer));
        assert(actions(state, dones(count)) =~= state.train.pending().take(count as int));
    }
}

/// Firing runs in full and then returns control: from the step that starts
/// a pulse sequence on an output, while each action is reported done, the
/// loop asks for every action of the plan in order, then takes up where the
/// sequence was started from, with the sequence exhausted.
pub proof fn lemma_fire_runs_in_full(
    state: ControllerState,
    spec: AlarmSpec,
    line: Line,
    then: Resume,
)
    requires
        line.is_writable(),
    ensures
        ({
            let fired = state.fire(spec, line, then);
            let through = ControllerState {
                train: TrainState { spec, line, issued: spec.plan(line).len() },
                ..state
            };
            &&& seq![fired.1] + actions(fired.0, dones(spec.plan(line).len())) == spec.plan(
                line,
            ).push(through.resume(then).1)
            &&& run(fired.0, dones(spec.plan(line).len())) == through.resume(then).0
        }),
{
    let plan = spec.plan(line);
    let count = plan.len();
    let fired = state.fire(spec, line, then);
    let through = ControllerState { train: TrainState { spec, line, issued: count }, ..state };
    if count == 0 {
        assert(seq![fired.1] + actions(fired.0, dones(count)) =~= plan.push(
            through.resume(then).1,
        ));
    } else {
        let fewer = (count - 1) as nat;
        assert(fired.0.train.pending() =~= plan.skip(1));
        lemma_pulses_run_on(fired.0, then, fewer);
        assert(dones(count).drop_last() =~= dones(fewer));
        assert(plan.skip(1).take(fewer as int) =~= plan.skip(1));
        assert(run(fired.0, dones(fewer)) == (ControllerState {
            phase: Phase::Pulsing(then),
            ..through
        }));
        assert(seq![fired.1] + actions(fired.0, dones(count)) =~= plan.push(
            through.resume(then).1,
        ));
    }
}

/// An engaged trigger sounds the alarm in full before anything else: the
/// loop asks for every action of the alarm's plan, in order, and only then
/// for the mode switch.
pub proof fn lemma_trigger_sounds_alarm(state: ControllerState)
    requires
        state.wf(),
        state.phase == Phase::AwaitTrigger,
    ensures
        ({
            let plan = state.alarm.plan(state.wiring.alarm_out);
            let fired = state.step(Event::Level(true));
            &&& seq![fired.1] + actions(fired.0, dones(plan.len())) == plan.push(
                Action::Read(state.wiring.mode_switch),
            )
            &&& run(fired.0, dones(plan.len())).phase == Phase::AwaitSwitch
        }),
{
    lemma_fire_runs_in_full(state, state.alarm, state.wiring.alarm_out, Resume::PollSwitch);
}

/// A countdown that runs out restarts from its starting value and sounds
/// the alarm exactly once: the loop asks for every action of the alarm's
/// plan, in order, and then begins the next iteration.
pub proof fn lemma_expiry_sounds_alarm(state: ControllerState, small: bool, large: bool)
    requires
        state.wf(),
        state.phase == Phase::AwaitLarge(small),
        state.timer.expires(increment_ms(small, large)),
    ensures
        ({
            let plan = state.alarm.plan(state.wiring.alarm_out);
            let fired = state.step(Event::Level(large));
            &&& fired.0.timer.remaining == state.timer.start
            &&& seq![fired.1] + actions(fired.0, dones(plan.len())) == plan.push(
                Action::Read(state.wiring.alarm_trigger),
            )
            &&& run(fired.0, dones(plan.len())).phase == Phase::AwaitTrigger
            &&& run(fired.0, dones(plan.len())).timer.remaining == state.timer.start
        }),
{
    let advanced = ControllerState {
        timer: state.timer.advance(increment_ms(small, large)),
        ..state
    };
    lemma_fire_runs_in_full(advanced, state.alarm, state.wiring.alarm_out, Resume::PollTrigger);
}

/// What a quiet world answers: every line reads low and every other action
/// succeeds.
pub open spec fn quiet_reply(action: Action) -> Event {
    match action {
        Action::Read(_) => Event::Level(false),
        _ => Event::Done,
    }
}

/// The loop in a quiet world: the state and the action after setup has
/// succeeded and `steps` further actions have been answered.
pub open spec fn quiet_run(start: ControllerState, steps: nat) -> (ControllerState, Action)
    decreases steps,
{
    if steps == 0 {
        start.step(Event::Done)
    } else {
        let before = quiet_run(start, (steps - 1) as nat);
        before.0.step(quiet_reply(before.1))
    }
}

/// What one iteration asks for when nothing is engaged.
pub open spec fn quiet_cycle(wiring: Wiring) -> Seq<Action> {
    seq![
        Action::Read(wiring.alarm_trigger),
        Action::Read(wiring.mode_switch),
        Action::Show,
        Action::Drive(wiring.led, true),
        Action::Delay(500),
        Action::Drive(wiring.led, false),
        Action::Delay(500),
        Action::Read(wiring.add_small),
        Action::Read(wiring.add_large),
    ]
}

/// The phase the loop is in after each action of a quiet iteration.
pub open spec fn quiet_phase(position: int) -> Phase {
    if position == 0 {
        Phase::AwaitTrigger
    } else if position == 1 {
        Phase::AwaitSwitch
    } else if position == 2 {
        Phase::AwaitShow
    } else if position <= 6 {
        Phase::Pulsing(Resume::PollButtons)
    } else if position == 7 {
        Phase::AwaitSmall
    } else {
        Phase::AwaitLarge(false)
    }
}

/// The state of the loop at every point of a quiet run, as long as the
/// countdown does not run out.
proof fn lemma_quiet_state(start: ControllerState, steps: nat)
    requires
        start.wf(),
        start.phase == Phase::Ready,
        start.mode == Mode::Message,
        (steps / 9) * start.timer.tick <= start.timer.remaining,
    ensures
        ({
            let (state, action) = quiet_run(start, steps);
            let position = (steps % 9) as int;
            &&& state.wf()
            &&& state.wiring == start.wiring
            &&& state.alarm == start.alarm
            &&& state.mode == Mode::Message
            &&& state.timer == (TimerState {
                remaining: (start.timer.remaining - (steps / 9) * start.timer.tick) as nat,
                ..start.timer
            })
            &&& state.phase == quiet_phase(position)
            &&& action == quiet_cycle(start.wiring)[position]
            &&& (3 <= position <= 6 ==> state.train == (TrainState {
                spec: blink(),
                line: start.wiring.led,
                issued: (position - 2) as nat,
            }))
            &&& (position == 2 ==> state.display.text == GREETING@)
        }),
    decreases steps,
{
    let tick = start.timer.tick;
    lemma_fire_pulses(blink(), start.wiring.led);
    if steps == 0 {
        assert((steps / 9) * tick == 0) by (nonlinear_arith)
            requires
                steps == 0,
        ;
    } else {
        let earlier = (steps - 1) as nat;
        assert((earlier / 9) * tick <= (steps / 9) * tick) by (nonlinear_arith)
            requires
                earlier / 9 <= steps / 9,
                tick >= 0,
        ;
        lemma_quiet_state(start, earlier);
        let before = quiet_run(start, earlier);
        if steps % 9 == 0 {
            assert((steps / 9) * tick == (earlier / 9) * tick + tick) by (nonlinear_arith)
                requires
                    steps / 9 == earlier / 9 + 1,
            ;
            assert(before.0.phase == Phase::AwaitLarge(false));
            assert(increment_ms(false, false) == 0);
            assert(!before.0.timer.expires(0));
        } else {
            assert(steps / 9 == earlier / 9);
        }
    }
}

/// With the mode switch, the alarm trigger and both buttons low throughout,
/// and for as long as the countdown has not run out, every iteration asks
/// for the same nine things: it never drives the alarm line and never
/// stops, the display shows the greeting each time it is shown, and the
/// status light goes on for 500 ms and off for 500 ms, which are the only
/// delays of the iteration.
pub proof fn lemma_quiet_loop(start: ControllerState, steps: nat)
    requires
        start.wf(),
        start.phase == Phase::Ready,
        start.mode == Mode::Message,
        (steps / 9) * start.timer.tick <= start.timer.remaining,
    ensures
        quiet_run(start, steps).1 == quiet_cycle(start.wiring)[(steps % 9) as int],
        quiet_run(start, steps).1 != Action::Halt,
        !(quiet_run(start, steps).1 matches Action::Drive(line, _) && line
            == start.wiring.alarm_out),
        quiet_run(start, steps).0.mode == Mode::Message,
        quiet_run(start, steps).1 == Action::Show ==> quiet_run(start, steps).0.display.text
            == GREETING@,
        quiet_run(start, steps).0.timer.remaining == start.timer.remaining - (steps / 9)
            * start.timer.tick,
        blocked_ms(quiet_cycle(start.wiring)) == 1000,
{
    lemma_quiet_state(start, steps);
    let ids = line_ids(start.wiring, start.display);
    assert(ids[0] != ids[3]);
    let cycle = quiet_cycle(start.wiring);
    assert(blocked_ms(cycle) == 1000) by {
        reveal_with_fuel(blocked_ms, 10);
        let c8 = cycle.drop_last();
        let c7 = c8.drop_last();
        let c6 = c7.drop_last();
        let c5 = c6.drop_last();
        let c4 = c5.drop_last();
        let c3 = c4.drop_last();
        let c2 = c3.drop_last();
        let c1 = c2.drop_last();
        assert(c1.drop_last().len() == 0);
        assert(c7.last() == Action::Delay(500));
        assert(c5.last() == Action::Delay(500));
    }
}

} // verus!
