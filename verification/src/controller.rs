//! The main loop as a state machine: given what the last action reported,
//! it decides what to do next. The loop that owns the hardware performs the
//! action and reports back; this module never blocks and never touches a pin.

use crate::alarm::{AlarmSpec, PulseTrain, TrainState};
use crate::detector::{DebounceState, EdgeDetector};
use crate::display::{render, render_text, OledView, OLED};
use crate::line::{Action, Event, Line};
use crate::mode::Mode;
use crate::timer::{
    increment_ms, lemma_timer_fits, resolve_increment, CountdownTimer, TimerState,
};
use vstd::prelude::*;

verus! {

/// How long the status light stays on, and then off, in every iteration.
/// The two delays together pace the whole loop.
pub const BLINK_HALF_PERIOD_MS: u32 = 500;

/// The lines the loop works with. Which pin is which is fixed when the
/// controller is made.
#[derive(Clone, Copy, Debug, PartialEq, Eq, Structural)]
pub struct Wiring {
    /// Status light, driven.
    pub led: Line,
    /// Mode switch, sampled.
    pub mode_switch: Line,
    /// Manual alarm trigger, sampled.
    pub alarm_trigger: Line,
    /// Alarm output, driven.
    pub alarm_out: Line,
    /// Button that adds the small increment, sampled.
    pub add_small: Line,
    /// Button that adds the large increment, sampled.
    pub add_large: Line,
}

/// Why a set of lines cannot run the loop.
#[derive(Clone, Copy, Debug, PartialEq, Eq, Structural)]
pub enum WiringError {
    /// A line that must be driven is an input, or one that must be sampled
    /// is an output.
    WrongDirection,
    /// Two roles were given the same pin.
    SharedLine,
}

/// Where the loop takes up again once a pulse sequence is through.
#[derive(Clone, Copy, Debug, PartialEq, Eq, Structural)]
pub enum Resume {
    /// With the mode switch: the sequence was a manually triggered alarm.
    PollSwitch,
    /// With the buttons: the sequence was the status light's blink.
    PollButtons,
    /// With the next iteration: the sequence was the countdown's alarm.
    PollTrigger,
}

/// What the loop is waiting for.
#[derive(Clone, Copy, Debug, PartialEq, Eq, Structural)]
pub enum Phase {
    /// Nothing has been asked yet; setup is expected to report.
    Ready,
    /// The level of the alarm trigger.
    AwaitTrigger,
    /// The level of the mode switch.
    AwaitSwitch,
    /// The display transport.
    AwaitShow,
    /// One action of a pulse sequence.
    Pulsing(Resume),
    /// The level of the small-increment button.
    AwaitSmall,
    /// The level of the large-increment button; the small one read as given.
    AwaitLarge(bool),
    /// Nothing: the loop has stopped for good.
    Halted,
}

/// The status light's blink: one pulse, on and off for half a period each.
pub open spec fn blink() -> AlarmSpec {
    AlarmSpec { pulse_count: 1, on_ms: BLINK_HALF_PERIOD_MS, off_ms: BLINK_HALF_PERIOD_MS }
}

/// The pins in use, in a fixed order.
pub open spec fn line_ids(wiring: Wiring, display: OledView) -> Seq<u8> {
    seq![
        wiring.led.id,
        wiring.mode_switch.id,
        wiring.alarm_trigger.id,
        wiring.alarm_out.id,
        wiring.add_small.id,
        wiring.add_large.id,
        display.sda.id,
        display.scl.id,
    ]
}

/// Every driven role has an output and every sampled role an input.
pub open spec fn directions_ok(wiring: Wiring, display: OledView) -> bool {
    &&& wiring.led.is_writable()
    &&& wiring.alarm_out.is_writable()
    &&& wiring.mode_switch.is_readable()
    &&& wiring.alarm_trigger.is_readable()
    &&& wiring.add_small.is_readable()
    &&& wiring.add_large.is_readable()
    &&& display.sda.is_writable()
    &&& display.scl.is_writable()
}

/// The lines can run the loop: directions fit and no pin serves twice.
pub open spec fn wired(wiring: Wiring, display: OledView) -> bool {
    directions_ok(wiring, display) && line_ids(wiring, display).no_duplicates()
}

/// The whole loop as values.
pub struct ControllerState {
    /// The lines in use.
    pub wiring: Wiring,
    /// How the alarm sounds.
    pub alarm: AlarmSpec,
    /// What the display shows.
    pub mode: Mode,
    /// The mode switch's edge detector.
    pub detector: DebounceState,
    /// The countdown.
    pub timer: TimerState,
    /// The display sink.
    pub display: OledView,
    /// The pulse sequence in progress; exhausted when there is none.
    pub train: TrainState,
    /// What the loop is waiting for.
    pub phase: Phase,
}

impl ControllerState {
    /// The lines can run the loop, the pulse sequence is within its plan and
    /// the countdown holds numbers that fit it.
    pub open spec fn wf(self) -> bool {
        wired(self.wiring, self.display) && self.train.wf() && self.timer.fits()
    }

    /// Stops for good.
    pub open spec fn halt(self) -> (ControllerState, Action) {
        (ControllerState { phase: Phase::Halted, ..self }, Action::Halt)
    }

    /// Begins an iteration: asks for the alarm trigger.
    pub open spec fn poll_trigger(self) -> (ControllerState, Action) {
        (
            ControllerState { phase: Phase::AwaitTrigger, ..self },
            Action::Read(self.wiring.alarm_trigger),
        )
    }

    /// Asks for the mode switch.
    pub open spec fn poll_switch(self) -> (ControllerState, Action) {
        (
            ControllerState { phase: Phase::AwaitSwitch, ..self },
            Action::Read(self.wiring.mode_switch),
        )
    }

    /// Asks for the first of the two buttons.
    pub open spec fn poll_buttons(self) -> (ControllerState, Action) {
        (ControllerState { phase: Phase::AwaitSmall, ..self }, Action::Read(self.wiring.add_small))
    }

    /// Takes the loop up again after a pulse sequence.
    pub open spec fn resume(self, then: Resume) -> (ControllerState, Action) {
        match then {
            Resume::PollSwitch => self.poll_switch(),
            Resume::PollButtons => self.poll_buttons(),
            Resume::PollTrigger => self.poll_trigger(),
        }
    }

    /// Hands out the next action of the pulse sequence, or takes the loop up
    /// again when the sequence is through.
    pub open spec fn pulse(self, then: Resume) -> (ControllerState, Action) {
        if self.train.exhausted() {
            self.resume(then)
        } else {
            (
                ControllerState {
                    train: self.train.advance(),
                    phase: Phase::Pulsing(then),
                    ..self
                },
                self.train.plan()[self.train.issued as int],
            )
        }
    }

    /// Starts a pulse sequence on `line`; a line that cannot be driven stops
    /// the loop.
    pub open spec fn fire(self, spec: AlarmSpec, line: Line, then: Resume) -> (
        ControllerState,
        Action,
    ) {
        if line.is_writable() {
            ControllerState { train: TrainState { spec, line, issued: 0 }, ..self }.pulse(then)
        } else {
            self.halt()
        }
    }

    /// Takes a sample of the mode switch: flips the mode on a rising edge,
    /// puts the text for the mode on the display and asks for it to be shown.
    pub open spec fn switched(self, sample: bool) -> (ControllerState, Action) {
        let detector = self.detector.poll(sample);
        let mode = if detector.edge {
            self.mode.flipped()
        } else {
            self.mode
        };
        (
            ControllerState {
                detector,
                mode,
                display: OledView { text: render_text(mode, self.timer.remaining), ..self.display },
                phase: Phase::AwaitShow,
                ..self
            },
            Action::Show,
        )
    }

    /// Advances the countdown by one tick with the given increment. The
    /// alarm fires when the countdown runs out; the loop stops when the time
    /// left no longer fits the timer.
    pub open spec fn ticked(self, increment: nat) -> (ControllerState, Action) {
        if self.timer.residual(increment) > i64::MAX {
            self.halt()
        } else {
            let advanced = ControllerState { timer: self.timer.advance(increment), ..self };
            if self.timer.expires(increment) {
                advanced.fire(self.alarm, self.wiring.alarm_out, Resume::PollTrigger)
            } else {
                advanced.poll_trigger()
            }
        }
    }

    /// One decision of the loop: the state it moves to and the action it
    /// asks for, given what the last action reported.
    ///
    /// Each iteration asks, in this order: the alarm trigger, and the alarm's
    /// pulses if it is engaged; the mode switch; the display; the status
    /// light's blink; the two buttons; then the countdown advances, with the
    /// alarm's pulses if it ran out. A failure report, or a report that does
    /// not answer the last action, stops the loop for good.
    pub open spec fn step(self, event: Event) -> (ControllerState, Action) {
        match (self.phase, event) {
            (Phase::Ready, Event::Done) => self.poll_trigger(),
            (Phase::AwaitTrigger, Event::Level(engaged)) => if engaged {
                self.fire(self.alarm, self.wiring.alarm_out, Resume::PollSwitch)
            } else {
                self.poll_switch()
            },
            (Phase::AwaitSwitch, Event::Level(sample)) => self.switched(sample),
            (Phase::AwaitShow, Event::Done) => self.fire(
                blink(),
                self.wiring.led,
                Resume::PollButtons,
            ),
            (Phase::Pulsing(then), Event::Done) => self.pulse(then),
            (Phase::AwaitSmall, Event::Level(small)) => (
                ControllerState { phase: Phase::AwaitLarge(small), ..self },
                Action::Read(self.wiring.add_large),
            ),
            (Phase::AwaitLarge(small), Event::Level(large)) => self.ticked(
                increment_ms(small, large),
            ),
            _ => self.halt(),
        }
    }
}

/// Whether some pin occurs twice.
fn has_duplicate(ids: &Vec<u8>) -> (found: bool)
    ensures
        found == !ids@.no_duplicates(),
{
    let mut i: usize = 0;
    while i < ids.len()
        invariant
            i <= ids.len(),
            forall|a: int, b: int| 0 <= a < i && a < b < ids.len() ==> ids@[a] != ids@[b],
        decreases ids.len() - i,
    {
        let mut j: usize = i + 1;
        while j < ids.len()
            invariant
                i < j <= ids.len(),
                forall|a: int, b: int| 0 <= a < i && a < b < ids.len() ==> ids@[a] != ids@[b],
                forall|b: int| i < b < j ==> ids@[i as int] != ids@[b],
            decreases ids.len() - j,
        {
            if ids[i] == ids[j] {
                return true;
            }
            j = j + 1;
        }
        i = i + 1;
    }
    assert forall|a: int, b: int| 0 <= a < ids@.len() && 0 <= b < ids@.len() && a != b implies ids@[a]
        != ids@[b] by {
        if a < b {
            assert(ids@[a] != ids@[b]);
        } else {
            assert(ids@[b] != ids@[a]);
        }
    }
    false
}

/// The main loop of the appliance, one decision at a time.
#[derive(Debug)]
pub struct Controller {
    wiring: Wiring,
    alarm: AlarmSpec,
    mode: Mode,
    detector: EdgeDetector,
    timer: CountdownTimer,
    display: OLED,
    train: PulseTrain,
    phase: Phase,
}

impl View for Controller {
    type V = ControllerState;

    closed spec fn view(&self) -> ControllerState {
        ControllerState {
            wiring: self.wiring,
            alarm: self.alarm,
            mode: self.mode,
            detector: self.detector@,
            timer: self.timer@,
            display: self.display@,
            train: self.train@,
            phase: self.phase,
        }
    }
}

impl Controller {
    /// A controller before its first iteration: the display in
    /// [`Mode::Message`], the mode switch taken to have been low, no pulse
    /// sequence in progress. The lines must fit their roles and all sit on
    /// different pins, the display's two included.
    pub fn new(
        wiring: Wiring,
        display: OLED,
        alarm: AlarmSpec,
        timer: CountdownTimer,
    ) -> (made: Result<Controller, WiringError>)
        ensures
            !directions_ok(wiring, display@) ==> made matches Err(WiringError::WrongDirection),
            directions_ok(wiring, display@) && !wired(wiring, display@) ==> made matches Err(
                WiringError::SharedLine,
            ),
            wired(wiring, display@) ==> (made matches Ok(controller) && controller@ == (
                ControllerState {
                    wiring,
                    alarm,
                    mode: Mode::Message,
                    detector: DebounceState { previous: false, edge: false },
                    timer: timer@,
                    display: display@,
                    train: TrainState {
                        spec: AlarmSpec { pulse_count: 0, on_ms: 0, off_ms: 0 },
                        line: wiring.led,
                        issued: 0,
                    },
                    phase: Phase::Ready,
                }
            ) && controller@.wf()),
    {
        let sda = display.sda();
        let scl = display.scl();
        let directions: bool = wiring.led.writable() && wiring.alarm_out.writable()
            && wiring.mode_switch.readable() && wiring.alarm_trigger.readable()
            && wiring.add_small.readable() && wiring.add_large.readable() && sda.writable()
            && scl.writable();
        if !directions {
            return Err(WiringError::WrongDirection);
        }
        let mut ids: Vec<u8> = Vec::new();
        ids.push(wiring.led.id);
        ids.push(wiring.mode_switch.id);
        ids.push(wiring.alarm_trigger.id);
        ids.push(wiring.alarm_out.id);
        ids.push(wiring.add_small.id);
        ids.push(wiring.add_large.id);
        ids.push(sda.id);
        ids.push(scl.id);
        assert(ids@ =~= line_ids(wiring, display@));
        if has_duplicate(&ids) {
            return Err(WiringError::SharedLine);
        }
        proof {
            lemma_timer_fits(timer);
        }
        let idle = AlarmSpec { pulse_count: 0, on_ms: 0, off_ms: 0 };
        match idle.fire(wiring.led) {
            Ok(train) => Ok(
                Controller {
                    wiring,
                    alarm,
                    mode: Mode::Message,
                    detector: EdgeDetector::new(),
                    timer,
                    display,
                    train,
                    phase: Phase::Ready,
                },
            ),
            Err(_) => Err(WiringError::WrongDirection),
        }
    }

    /// What the display shows.
    pub fn mode(&self) -> (mode: Mode)
        ensures
            mode == self@.mode,
    {
        self.mode
    }

    /// What the loop is waiting for.
    pub fn phase(&self) -> (phase: Phase)
        ensures
            phase == self@.phase,
    {
        self.phase
    }

    /// The countdown.
    pub fn timer(&self) -> (timer: &CountdownTimer)
        ensures
            timer@ == self@.timer,
    {
        &self.timer
    }

    /// The display sink, whose text the transport takes on [`Action::Show`].
    pub fn display(&self) -> (display: &OLED)
        ensures
            display@ == self@.display,
    {
        &self.display
    }

    /// The lines in use.
    pub fn wiring(&self) -> (wiring: Wiring)
        ensures
            wiring == self@.wiring,
    {
        self.wiring
    }

    /// Whether the loop has stopped for good.
    pub fn is_halted(&self) -> (halted: bool)
        ensures
            halted == (self@.phase == Phase::Halted),
    {
        match self.phase {
            Phase::Halted => true,
            _ => false,
        }
    }

    fn halt(&mut self) -> (action: Action)
        ensures
            (final(self)@, action) == old(self)@.halt(),
    {
        self.phase = Phase::Halted;
        Action::Halt
    }

    fn poll_trigger(&mut self) -> (action: Action)
        ensures
            (final(self)@, action) == old(self)@.poll_trigger(),
    {
        self.phase = Phase::AwaitTrigger;
        Action::Read(self.wiring.alarm_trigger)
    }

    fn poll_switch(&mut self) -> (action: Action)
        ensures
            (final(self)@, action) == old(self)@.poll_switch(),
    {
        self.phase = Phase::AwaitSwitch;
        Action::Read(self.wiring.mode_switch)
    }

    fn poll_buttons(&mut self) -> (action: Action)
        ensures
            (final(self)@, action) == old(self)@.poll_buttons(),
    {
        self.phase = Phase::AwaitSmall;
        Action::Read(self.wiring.add_small)
    }

    fn resume(&mut self, then: Resume) -> (action: Action)
        ensures
            (final(self)@, action) == old(self)@.resume(then),
    {
        match then {
            Resume::PollSwitch => self.poll_switch(),
            Resume::PollButtons => self.poll_buttons(),
            Resume::PollTrigger => self.poll_trigger(),
        }
    }

    fn pulse(&mut self, then: Resume) -> (action: Action)
        ensures
            (final(self)@, action) == old(self)@.pulse(then),
    {
        match self.train.next() {
            Some(action) => {
                self.phase = Phase::Pulsing(then);
                action
            },
            None => self.resume(then),
        }
    }

    fn fire(&mut self, spec: AlarmSpec, line: Line, then: Resume) -> (action: Action)
        ensures
            (final(self)@, action) == old(self)@.fire(spec, line, then),
    {
        match spec.fire(line) {
            Ok(train) => {
                self.train = train;
                self.pulse(then)
            },
            Err(_) => self.halt(),
        }
    }

    fn switched(&mut self, sample: bool) -> (action: Action)
        ensures
            (final(self)@, action) == old(self)@.switched(sample),
    {
        if self.detector.poll(sample) {
            self.mode = self.mode.toggle();
        }
        let text = render(self.mode, &self.timer);
        self.display.update_text(text.as_str());
        self.phase = Phase::AwaitShow;
        Action::Show
    }

    fn ticked(&mut self, increment: u32) -> (action: Action)
        ensures
            (final(self)@, action) == old(self)@.ticked(increment as nat),
    {
        if !self.timer.can_advance(increment) {
            return self.halt();
        }
        if self.timer.tick(increment) {
            self.fire(self.alarm, self.wiring.alarm_out, Resume::PollTrigger)
        } else {
            self.poll_trigger()
        }
    }

    /// Decides what to do next, given what the last action reported. The
    /// first call reports on setup: `Event::Done` starts the loop. After
    /// `Action::Halt` every further call answers `Action::Halt`.
    pub fn step(&mut self, event: Event) -> (action: Action)
        ensures
            (final(self)@, action) == old(self)@.step(event),
    {
        let blink_spec = AlarmSpec {
            pulse_count: 1,
            on_ms: BLINK_HALF_PERIOD_MS,
            off_ms: BLINK_HALF_PERIOD_MS,
        };
        match (self.phase, event) {
            (Phase::Ready, Event::Done) => self.poll_trigger(),
            (Phase::AwaitTrigger, Event::Level(engaged)) => if engaged {
                self.fire(self.alarm, self.wiring.alarm_out, Resume::PollSwitch)
            } else {
                self.poll_switch()
            },
            (Phase::AwaitSwitch, Event::Level(sample)) => self.switched(sample),
            (Phase::AwaitShow, Event::Done) => self.fire(
                blink_spec,
                self.wiring.led,
                Resume::PollButtons,
            ),
            (Phase::Pulsing(then), Event::Done) => self.pulse(then),
            (Phase::AwaitSmall, Event::Level(small)) => {
                self.phase = Phase::AwaitLarge(small);
                Action::Read(self.wiring.add_large)
            },
            (Phase::AwaitLarge(small), Event::Level(large)) => self.ticked(
                resolve_increment(small, large),
            ),
            _ => self.halt(),
        }
    }
}

} // verus!
