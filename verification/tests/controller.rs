use pico_timer::alarm::AlarmSpec;
use pico_timer::controller::{
    Controller, Phase, Resume, Wiring, WiringError, BLINK_HALF_PERIOD_MS,
};
use pico_timer::display::OLED;
use pico_timer::line::{Action, Event, Line, Pull};
use pico_timer::mode::Mode;
use pico_timer::timer::CountdownTimer;

const LED: u8 = 25;
const MODE_SWITCH: u8 = 0;
const ALARM_TRIGGER: u8 = 1;
const ALARM_OUT: u8 = 2;
const ADD_SMALL: u8 = 3;
const ADD_LARGE: u8 = 4;

fn wiring() -> Wiring {
    Wiring {
        led: Line::output(LED),
        mode_switch: Line::input(MODE_SWITCH, Pull::Down),
        alarm_trigger: Line::input(ALARM_TRIGGER, Pull::Down),
        alarm_out: Line::output(ALARM_OUT),
        add_small: Line::input(ADD_SMALL, Pull::Down),
        add_large: Line::input(ADD_LARGE, Pull::Down),
    }
}

fn display() -> OLED {
    OLED::new(Line::output(16), Line::output(17))
}

fn alarm() -> AlarmSpec {
    AlarmSpec { pulse_count: 10, on_ms: 100, off_ms: 100 }
}

fn controller(timer: CountdownTimer) -> Controller {
    Controller::new(wiring(), display(), alarm(), timer).unwrap()
}

/// A stand-in for the hardware: it answers reads from the levels it holds
/// and records what was driven, waited for and shown.
struct Bench {
    levels: [bool; 32],
    trace: Vec<Action>,
    shown: Vec<String>,
    blocked_ms: u64,
    report: Event,
    asked: Option<Action>,
    begun: bool,
}

impl Bench {
    fn new() -> Bench {
        Bench {
            levels: [false; 32],
            trace: Vec::new(),
            shown: Vec::new(),
            blocked_ms: 0,
            report: Event::Done,
            asked: None,
            begun: false,
        }
    }

    fn answer(&mut self, controller: &Controller, action: Action) -> Event {
        self.trace.push(action);
        match action {
            Action::Read(line) => Event::Level(self.levels[usize::from(line.id)]),
            Action::Drive(line, level) => {
                self.levels[usize::from(line.id)] = level;
                Event::Done
            }
            Action::Delay(ms) => {
                self.blocked_ms += u64::from(ms);
                Event::Done
            }
            Action::Show => {
                self.shown.push(controller.display().display_text().to_string());
                Event::Done
            }
            Action::Halt => Event::Done,
        }
    }

    /// Runs whole iterations: returns when the loop asks for the alarm
    /// trigger after the last of them, with that request still unanswered.
    fn iterate(&mut self, controller: &mut Controller, iterations: usize) {
        let mut finished = 0;
        loop {
            let action = match self.asked.take() {
                Some(action) => action,
                None => {
                    let action = controller.step(self.report);
                    if action == Action::Read(wiring().alarm_trigger) {
                        if self.begun {
                            finished += 1;
                        }
                        self.begun = true;
                    }
                    action
                }
            };
            assert_ne!(action, Action::Halt);
            if finished == iterations {
                self.asked = Some(action);
                return;
            }
            self.report = self.answer(controller, action);
        }
    }

    fn drives(&self, id: u8) -> Vec<bool> {
        self.trace
            .iter()
            .filter_map(|action| match action {
                Action::Drive(line, level) if line.id == id => Some(*level),
                _ => None,
            })
            .collect()
    }
}

fn quiet_iteration() -> Vec<Action> {
    let wiring = wiring();
    vec![
        Action::Read(wiring.alarm_trigger),
        Action::Read(wiring.mode_switch),
        Action::Show,
        Action::Drive(wiring.led, true),
        Action::Delay(500),
        Action::Drive(wiring.led, false),
        Action::Delay(500),
        Action::Read(wiring.add_small),
        Action::Read(wiring.add_large),
    ]
}

#[test]
fn new_controller_is_ready_in_message_mode() {
    let controller = controller(CountdownTimer::new(60_000, 1_000));
    assert_eq!(controller.phase(), Phase::Ready);
    assert_eq!(controller.mode(), Mode::Message);
    assert_eq!(controller.wiring(), wiring());
    assert_eq!(controller.timer().remaining_ms(), 60_000);
    assert_eq!(controller.display().display_text(), "Hello World!");
    assert!(!controller.is_halted());
    assert_eq!(BLINK_HALF_PERIOD_MS, 500);
}

#[test]
fn wrong_direction_is_refused() {
    let timer = || CountdownTimer::new(60_000, 1_000);
    let led_as_input = Wiring { led: Line::input(LED, Pull::Floating), ..wiring() };
    assert_eq!(
        Controller::new(led_as_input, display(), alarm(), timer()).err(),
        Some(WiringError::WrongDirection)
    );
    let switch_as_output = Wiring { mode_switch: Line::output(MODE_SWITCH), ..wiring() };
    assert_eq!(
        Controller::new(switch_as_output, display(), alarm(), timer()).err(),
        Some(WiringError::WrongDirection)
    );
    let bus_on_input = OLED::new(Line::input(16, Pull::Up), Line::output(17));
    assert_eq!(
        Controller::new(wiring(), bus_on_input, alarm(), timer()).err(),
        Some(WiringError::WrongDirection)
    );
}

#[test]
fn shared_pin_is_refused() {
    let timer = || CountdownTimer::new(60_000, 1_000);
    let twice = Wiring { alarm_out: Line::output(LED), ..wiring() };
    assert_eq!(
        Controller::new(twice, display(), alarm(), timer()).err(),
        Some(WiringError::SharedLine)
    );
    let bus_on_button = OLED::new(Line::output(16), Line::output(16));
    assert_eq!(
        Controller::new(wiring(), bus_on_button, alarm(), timer()).err(),
        Some(WiringError::SharedLine)
    );
}

#[test]
fn wrong_direction_is_reported_before_a_shared_pin() {
    let both = Wiring {
        led: Line::input(LED, Pull::Floating),
        alarm_out: Line::output(LED),
        ..wiring()
    };
    assert_eq!(
        Controller::new(both, display(), alarm(), CountdownTimer::new(1, 1)).err(),
        Some(WiringError::WrongDirection)
    );
}

#[test]
fn quiet_lines_give_the_same_iteration_every_time() {
    let mut bench = Bench::new();
    let mut controller = controller(CountdownTimer::new(60_000, 1_000));
    bench.iterate(&mut controller, 25);
    let expected: Vec<Action> = (0..25).flat_map(|_| quiet_iteration()).collect();
    assert_eq!(bench.trace, expected);
    assert_eq!(bench.shown, vec!["Hello World!".to_string(); 25]);
    assert!(bench.drives(ALARM_OUT).is_empty());
    assert_eq!(bench.blocked_ms, 25 * 1_000);
    assert_eq!(controller.mode(), Mode::Message);
    assert_eq!(controller.timer().remaining_ms(), 60_000 - 25 * 1_000);
}

#[test]
fn led_blinks_once_per_iteration() {
    let mut bench = Bench::new();
    let mut controller = controller(CountdownTimer::new(60_000, 1_000));
    bench.iterate(&mut controller, 4);
    assert_eq!(bench.drives(LED), vec![true, false, true, false, true, false, true, false]);
}

#[test]
fn engaged_trigger_runs_the_alarm_before_the_switch_is_polled() {
    let mut bench = Bench::new();
    bench.levels[usize::from(ALARM_TRIGGER)] = true;
    let mut controller = controller(CountdownTimer::new(60_000, 1_000));
    bench.iterate(&mut controller, 1);
    let wiring = wiring();
    let mut expected = vec![Action::Read(wiring.alarm_trigger)];
    for _ in 0..10 {
        expected.push(Action::Drive(wiring.alarm_out, true));
        expected.push(Action::Delay(100));
        expected.push(Action::Drive(wiring.alarm_out, false));
        expected.push(Action::Delay(100));
    }
    expected.extend_from_slice(&quiet_iteration()[1..]);
    assert_eq!(bench.trace, expected);
    assert_eq!(bench.blocked_ms, 10 * (100 + 100) + 1_000);
}

#[test]
fn alarm_with_no_pulses_is_skipped() {
    let mut bench = Bench::new();
    bench.levels[usize::from(ALARM_TRIGGER)] = true;
    let silent = AlarmSpec { pulse_count: 0, on_ms: 100, off_ms: 100 };
    let mut controller =
        Controller::new(wiring(), display(), silent, CountdownTimer::new(60_000, 1_000)).unwrap();
    bench.iterate(&mut controller, 2);
    let expected: Vec<Action> = (0..2).flat_map(|_| quiet_iteration()).collect();
    assert_eq!(bench.trace, expected);
}

#[test]
fn edge_flips_the_mode_and_a_second_edge_flips_it_back() {
    let mut bench = Bench::new();
    let mut controller = controller(CountdownTimer::new(60_000, 1_000));
    let switch = usize::from(MODE_SWITCH);

    bench.levels[switch] = true;
    bench.iterate(&mut controller, 1);
    assert_eq!(controller.mode(), Mode::Timer);

    for _ in 0..5 {
        bench.iterate(&mut controller, 1);
        assert_eq!(controller.mode(), Mode::Timer);
    }

    bench.levels[switch] = false;
    bench.iterate(&mut controller, 1);
    assert_eq!(controller.mode(), Mode::Timer);

    bench.levels[switch] = true;
    bench.iterate(&mut controller, 1);
    assert_eq!(controller.mode(), Mode::Message);

    bench.levels[switch] = false;
    for _ in 0..5 {
        bench.iterate(&mut controller, 1);
        assert_eq!(controller.mode(), Mode::Message);
    }
    assert_eq!(
        bench.shown,
        vec![
            "Timer: 60000",
            "Timer: 59000",
            "Timer: 58000",
            "Timer: 57000",
            "Timer: 56000",
            "Timer: 55000",
            "Timer: 54000",
            "Hello World!",
            "Hello World!",
            "Hello World!",
            "Hello World!",
            "Hello World!",
            "Hello World!",
        ]
    );
}

#[test]
fn countdown_expiry_fires_the_alarm_once_and_restarts() {
    let mut bench = Bench::new();
    let mut controller = controller(CountdownTimer::resume(500, 60_000, 1_000));
    bench.iterate(&mut controller, 1);
    let wiring = wiring();
    let mut expected = quiet_iteration();
    for _ in 0..10 {
        expected.push(Action::Drive(wiring.alarm_out, true));
        expected.push(Action::Delay(100));
        expected.push(Action::Drive(wiring.alarm_out, false));
        expected.push(Action::Delay(100));
    }
    assert_eq!(bench.trace, expected);
    assert_eq!(controller.timer().remaining_ms(), 60_000);
    assert_eq!(controller.phase(), Phase::AwaitTrigger);

    bench.trace.clear();
    bench.iterate(&mut controller, 3);
    assert!(bench.drives(ALARM_OUT).is_empty());
    assert_eq!(controller.timer().remaining_ms(), 57_000);
}

#[test]
fn held_buttons_add_time_in_every_iteration() {
    let mut bench = Bench::new();
    bench.levels[usize::from(ADD_SMALL)] = true;
    bench.levels[usize::from(ADD_LARGE)] = true;
    let mut controller = controller(CountdownTimer::new(1_000, 0));
    bench.iterate(&mut controller, 3);
    assert_eq!(controller.timer().remaining_ms(), 1_000 + 3 * 65_000);
    assert!(bench.drives(ALARM_OUT).is_empty());
}

#[test]
fn each_button_adds_its_own_increment() {
    let mut bench = Bench::new();
    bench.levels[usize::from(ADD_SMALL)] = true;
    let mut controller = controller(CountdownTimer::new(10_000, 1_000));
    bench.iterate(&mut controller, 1);
    assert_eq!(controller.timer().remaining_ms(), 10_000 - 1_000 + 5_000);
    bench.levels[usize::from(ADD_SMALL)] = false;
    bench.levels[usize::from(ADD_LARGE)] = true;
    bench.iterate(&mut controller, 1);
    assert_eq!(controller.timer().remaining_ms(), 14_000 - 1_000 + 60_000);
}

#[test]
fn display_is_rendered_before_the_countdown_advances() {
    let mut bench = Bench::new();
    bench.levels[usize::from(MODE_SWITCH)] = true;
    let mut controller = controller(CountdownTimer::new(3_000, 1_000));
    bench.iterate(&mut controller, 2);
    assert_eq!(bench.shown, vec!["Timer: 3000", "Timer: 2000"]);
    assert_eq!(controller.timer().remaining_ms(), 1_000);
}

#[test]
fn failed_setup_halts_before_the_loop_starts() {
    let mut controller = controller(CountdownTimer::new(60_000, 1_000));
    assert_eq!(controller.step(Event::Failed), Action::Halt);
    assert!(controller.is_halted());
    assert_eq!(controller.phase(), Phase::Halted);
}

#[test]
fn failed_line_operation_halts_for_good() {
    let mut controller = controller(CountdownTimer::new(60_000, 1_000));
    assert_eq!(controller.step(Event::Done), Action::Read(wiring().alarm_trigger));
    assert_eq!(controller.step(Event::Level(false)), Action::Read(wiring().mode_switch));
    assert_eq!(controller.step(Event::Failed), Action::Halt);
    assert!(controller.is_halted());
    for event in [Event::Done, Event::Level(true), Event::Level(false), Event::Failed] {
        assert_eq!(controller.step(event), Action::Halt);
        assert!(controller.is_halted());
    }
}

#[test]
fn failure_during_the_alarm_halts() {
    let mut controller = controller(CountdownTimer::new(60_000, 1_000));
    assert_eq!(controller.step(Event::Done), Action::Read(wiring().alarm_trigger));
    assert_eq!(controller.step(Event::Level(true)), Action::Drive(wiring().alarm_out, true));
    assert_eq!(controller.step(Event::Done), Action::Delay(100));
    assert_eq!(controller.step(Event::Failed), Action::Halt);
    assert!(controller.is_halted());
}

#[test]
fn answer_of_the_wrong_kind_halts() {
    let mut controller = controller(CountdownTimer::new(60_000, 1_000));
    assert_eq!(controller.step(Event::Done), Action::Read(wiring().alarm_trigger));
    assert_eq!(controller.step(Event::Done), Action::Halt);

    let mut fresh = self::controller(CountdownTimer::new(60_000, 1_000));
    assert_eq!(fresh.step(Event::Level(true)), Action::Halt);
}

#[test]
fn phases_follow_the_iteration() {
    let mut controller = controller(CountdownTimer::new(60_000, 1_000));
    let mut phases = Vec::new();
    let mut event = Event::Done;
    for _ in 0..9 {
        let action = controller.step(event);
        phases.push(controller.phase());
        event = match action {
            Action::Read(_) => Event::Level(false),
            _ => Event::Done,
        };
    }
    assert_eq!(
        phases,
        vec![
            Phase::AwaitTrigger,
            Phase::AwaitSwitch,
            Phase::AwaitShow,
            Phase::Pulsing(Resume::PollButtons),
            Phase::Pulsing(Resume::PollButtons),
            Phase::Pulsing(Resume::PollButtons),
            Phase::Pulsing(Resume::PollButtons),
            Phase::AwaitSmall,
            Phase::AwaitLarge(false),
        ]
    );
}
