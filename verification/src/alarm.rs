//! The alarm: a fixed number of pulses on an output line.

use crate::line::{Action, Line, LineError};
use vstd::prelude::*;

verus! {

/// How the alarm sounds. Set once, never changed while running.
#[derive(Clone, Copy, Debug, PartialEq, Eq, Structural)]
pub struct AlarmSpec {
    /// How many times the line goes high and low again.
    pub pulse_count: u32,
    /// How long the line stays high in each pulse, in milliseconds.
    pub on_ms: u32,
    /// How long the line stays low after each pulse, in milliseconds.
    pub off_ms: u32,
}

/// `unit` repeated `times` times, for a unit of four actions.
pub open spec fn repeated(unit: Seq<Action>, times: nat) -> Seq<Action> {
    Seq::new(4 * times, |i: int| unit[i % 4])
}

/// The milliseconds that a run of actions blocks for: the sum of its delays.
pub open spec fn blocked_ms(actions: Seq<Action>) -> int
    decreases actions.len(),
{
    if actions.len() == 0 {
        0
    } else {
        blocked_ms(actions.drop_last()) + match actions.last() {
            Action::Delay(ms) => ms as int,
            _ => 0int,
        }
    }
}

/// How often a run of actions drives `line` to `level`.
pub open spec fn drive_count(actions: Seq<Action>, line: Line, level: bool) -> nat
    decreases actions.len(),
{
    if actions.len() == 0 {
        0
    } else {
        drive_count(actions.drop_last(), line, level) + if actions.last() == Action::Drive(
            line,
            level,
        ) {
            1nat
        } else {
            0nat
        }
    }
}

impl AlarmSpec {
    /// One pulse on `line`: high, hold, low, hold.
    pub open spec fn pulse(self, line: Line) -> Seq<Action> {
        seq![
            Action::Drive(line, true),
            Action::Delay(self.on_ms),
            Action::Drive(line, false),
            Action::Delay(self.off_ms),
        ]
    }

    /// Everything one firing of the alarm does, in order.
    pub open spec fn plan(self, line: Line) -> Seq<Action> {
        repeated(self.pulse(line), self.pulse_count as nat)
    }

    /// Starts the pulse sequence on `line`, which must be an output. Nothing
    /// else runs until the returned train is exhausted: the caller performs
    /// its actions one after the other.
    pub fn fire(&self, line: Line) -> (started: Result<PulseTrain, LineError>)
        ensures
            line.is_writable() ==> (started matches Ok(train) && train@ == (TrainState {
                spec: *self,
                line,
                issued: 0,
            })),
            !line.is_writable() ==> started matches Err(LineError::NotWritable),
    {
        if line.writable() {
            Ok(PulseTrain { spec: *self, line, pulse: 0, stage: 0 })
        } else {
            Err(LineError::NotWritable)
        }
    }
}

/// A firing of the alarm, as far as it has got.
pub struct TrainState {
    /// How the alarm sounds.
    pub spec: AlarmSpec,
    /// The output that is pulsed.
    pub line: Line,
    /// How many actions of the plan have been handed out.
    pub issued: nat,
}

impl TrainState {
    /// The whole plan of this firing.
    pub open spec fn plan(self) -> Seq<Action> {
        self.spec.plan(self.line)
    }

    /// No more has been handed out than the plan holds, and the line can be
    /// driven.
    pub open spec fn wf(self) -> bool {
        self.issued <= self.plan().len() && self.line.is_writable()
    }

    /// Whether every action has been handed out.
    pub open spec fn exhausted(self) -> bool {
        self.issued >= self.plan().len()
    }

    /// What is still to be done.
    pub open spec fn pending(self) -> Seq<Action> {
        self.plan().skip(self.issued as int)
    }

    /// The train once the next action is handed out.
    pub open spec fn advance(self) -> TrainState {
        TrainState { issued: self.issued + 1, ..self }
    }
}

/// The pulse sequence of one firing, handed out one action at a time.
#[derive(Debug)]
pub struct PulseTrain {
    spec: AlarmSpec,
    line: Line,
    pulse: u32,
    stage: u8,
}

impl View for PulseTrain {
    type V = TrainState;

    closed spec fn view(&self) -> TrainState {
        TrainState { spec: self.spec, line: self.line, issued: (4 * self.pulse + self.stage) as nat }
    }
}

impl PulseTrain {
    #[verifier::type_invariant]
    spec fn inv(&self) -> bool {
        &&& self.pulse <= self.spec.pulse_count
        &&& self.stage < 4
        &&& self.pulse == self.spec.pulse_count ==> self.stage == 0
        &&& self.line.is_writable()
    }

    /// Whether the whole sequence has been handed out.
    pub fn is_exhausted(&self) -> (done: bool)
        ensures
            done == self@.exhausted(),
            self@.wf(),
    {
        proof {
            use_type_invariant(self);
        }
        self.pulse >= self.spec.pulse_count
    }

    /// Hands out the next action of the sequence, or `None` when all
    /// `4 * pulse_count` of them have been handed out.
    pub fn next(&mut self) -> (action: Option<Action>)
        ensures
            old(self)@.wf(),
            final(self)@.wf(),
            !old(self)@.exhausted() ==> action == Some(old(self)@.plan()[old(self)@.issued as int])
                && final(self)@ == old(self)@.advance(),
            old(self)@.exhausted() ==> action.is_none() && final(self)@ == old(self)@,
    {
        proof {
            use_type_invariant(&*self);
        }
        if self.pulse >= self.spec.pulse_count {
            return None;
        }
        let action = match self.stage {
            0 => Action::Drive(self.line, true),
            1 => Action::Delay(self.spec.on_ms),
            2 => Action::Drive(self.line, false),
            _ => Action::Delay(self.spec.off_ms),
        };
        if self.stage == 3 {
            self.stage = 0;
            self.pulse = self.pulse + 1;
        } else {
            self.stage = self.stage + 1;
        }
        Some(action)
    }
}

/// The delays of two runs add up.
pub proof fn lemma_blocked_ms_concat(first: Seq<Action>, second: Seq<Action>)
    ensures
        blocked_ms(first + second) == blocked_ms(first) + blocked_ms(second),
    decreases second.len(),
{
    if second.len() == 0 {
        assert(first + second =~= first);
    } else {
        assert((first + second).drop_last() =~= first + second.drop_last());
        lemma_blocked_ms_concat(first, second.drop_last());
    }
}

/// The drives of two runs add up.
pub proof fn lemma_drive_count_concat(
    first: Seq<Action>,
    second: Seq<Action>,
    line: Line,
    level: bool,
)
    ensures
        drive_count(first + second, line, level) == drive_count(first, line, level) + drive_count(
            second,
            line,
            level,
        ),
    decreases second.len(),
{
    if second.len() == 0 {
        assert(first + second =~= first);
    } else {
        assert((first + second).drop_last() =~= first + second.drop_last());
        lemma_drive_count_concat(first, second.drop_last(), line, level);
    }
}

/// One firing is exactly `pulse_count` pulses, each of them high, hold, low,
/// hold: the line is driven high `pulse_count` times and low as often, and
/// the firing blocks for `pulse_count * (on_ms + off_ms)` milliseconds.
pub proof fn lemma_fire_pulses(spec: AlarmSpec, line: Line)
    ensures
        spec.plan(line).len() == 4 * spec.pulse_count,
        forall|k: int|
            0 <= k < spec.pulse_count ==> #[trigger] spec.plan(line).subrange(4 * k, 4 * k + 4)
                == spec.pulse(line),
        drive_count(spec.plan(line), line, true) == spec.pulse_count,
        drive_count(spec.plan(line), line, false) == spec.pulse_count,
        blocked_ms(spec.plan(line)) == spec.pulse_count * (spec.on_ms + spec.off_ms),
{
    let unit = spec.pulse(line);
    assert forall|k: int| 0 <= k < spec.pulse_count implies #[trigger] spec.plan(line).subrange(
        4 * k,
        4 * k + 4,
    ) == unit by {
        assert(spec.plan(line).subrange(4 * k, 4 * k + 4) =~= unit);
    }
    lemma_repeated_totals(spec, line, spec.pulse_count as nat);
}

/// The totals of `lemma_fire_pulses`, for any number of pulses.
proof fn lemma_repeated_totals(spec: AlarmSpec, line: Line, times: nat)
    ensures
        drive_count(repeated(spec.pulse(line), times), line, true) == times,
        drive_count(repeated(spec.pulse(line), times), line, false) == times,
        blocked_ms(repeated(spec.pulse(line), times)) == times * (spec.on_ms + spec.off_ms),
    decreases times,
{
    let unit = spec.pulse(line);
    let period = spec.on_ms + spec.off_ms;
    if times == 0 {
        assert(times * period == 0) by (nonlinear_arith)
            requires
                times == 0,
        ;
    } else {
        let fewer = (times - 1) as nat;
        lemma_repeated_totals(spec, line, fewer);
        assert(repeated(unit, times) =~= repeated(unit, fewer) + unit);
        lemma_blocked_ms_concat(repeated(unit, fewer), unit);
        lemma_drive_count_concat(repeated(unit, fewer), unit, line, true);
        lemma_drive_count_concat(repeated(unit, fewer), unit, line, false);
        reveal_with_fuel(blocked_ms, 5);
        reveal_with_fuel(drive_count, 5);
        assert(unit.drop_last() =~= seq![
            Action::Drive(line, true),
            Action::Delay(spec.on_ms),
            Action::Drive(line, false),
        ]);
        assert(unit.drop_last().drop_last() =~= seq![
            Action::Drive(line, true),
            Action::Delay(spec.on_ms),
        ]);
        assert(unit.drop_last().drop_last().drop_last() =~= seq![Action::Drive(line, true)]);
        assert(blocked_ms(unit) == period);
        assert(drive_count(unit, line, true) == 1);
        assert(drive_count(unit, line, false) == 1);
        assert(times * period == fewer * period + period) by (nonlinear_arith)
            requires
                times == fewer + 1,
        ;
    }
}

} // verus!
