//! What the display shows: the text for each mode, and the sink that holds
//! it until the transport takes it.

use crate::line::Line;
use crate::mode::Mode;
use crate::timer::CountdownTimer;
use vstd::prelude::*;
use vstd::string::*;

verus! {

/// The text shown in [`Mode::Message`].
pub const GREETING: &'static str = "Hello World!";

/// What precedes the time left in [`Mode::Timer`].
pub const COUNTDOWN_LABEL: &'static str = "Timer: ";

/// The character for one decimal digit.
pub open spec fn digit(d: int) -> char {
    if d == 0 {
        '0'
    } else if d == 1 {
        '1'
    } else if d == 2 {
        '2'
    } else if d == 3 {
        '3'
    } else if d == 4 {
        '4'
    } else if d == 5 {
        '5'
    } else if d == 6 {
        '6'
    } else if d == 7 {
        '7'
    } else if d == 8 {
        '8'
    } else {
        '9'
    }
}

/// A number in decimal, most significant digit first, without padding.
pub open spec fn decimal(n: nat) -> Seq<char>
    decreases n,
{
    if n < 10 {
        seq![digit(n as int)]
    } else {
        decimal(n / 10).push(digit((n % 10) as int))
    }
}

/// The text of the countdown screen for a given time left, in milliseconds.
pub open spec fn countdown_text(remaining: nat) -> Seq<char> {
    COUNTDOWN_LABEL@ + decimal(remaining)
}

/// The text the display shows in `mode` with `remaining` milliseconds left.
pub open spec fn render_text(mode: Mode, remaining: nat) -> Seq<char> {
    match mode {
        Mode::Message => GREETING@,
        Mode::Timer => countdown_text(remaining),
    }
}

/// The one-character string for a decimal digit.
fn digit_str(d: u64) -> (s: &'static str)
    requires
        d < 10,
    ensures
        s@ == seq![digit(d as int)],
{
    proof {
        reveal_strlit("0");
        reveal_strlit("1");
        reveal_strlit("2");
        reveal_strlit("3");
        reveal_strlit("4");
        reveal_strlit("5");
        reveal_strlit("6");
        reveal_strlit("7");
        reveal_strlit("8");
        reveal_strlit("9");
    }
    let s: &'static str = if d == 0 {
        "0"
    } else if d == 1 {
        "1"
    } else if d == 2 {
        "2"
    } else if d == 3 {
        "3"
    } else if d == 4 {
        "4"
    } else if d == 5 {
        "5"
    } else if d == 6 {
        "6"
    } else if d == 7 {
        "7"
    } else if d == 8 {
        "8"
    } else {
        "9"
    };
    assert(s@ =~= seq![digit(d as int)]);
    s
}

/// Appends `n` in decimal to `text`.
fn append_decimal(text: &mut String, n: u64)
    ensures
        final(text)@ == old(text)@ + decimal(n as nat),
    decreases n,
{
    if n >= 10 {
        append_decimal(text, n / 10);
    }
    text.append(digit_str(n % 10));
    assert(text@ =~= old(text)@ + decimal(n as nat));
}

/// Decides what the display shows: the greeting in [`Mode::Message`], and in
/// [`Mode::Timer`] the label followed by the milliseconds left, in decimal.
pub fn render(mode: Mode, timer: &CountdownTimer) -> (text: String)
    ensures
        text@ == render_text(mode, timer@.remaining),
{
    match mode {
        Mode::Message => String::from_str(GREETING),
        Mode::Timer => {
            let mut text = String::from_str(COUNTDOWN_LABEL);
            let remaining: i64 = timer.remaining_ms();
            append_decimal(&mut text, remaining as u64);
            text
        },
    }
}

/// The display sink as values.
pub struct OledView {
    /// Panel height as configured.
    pub height: int,
    /// Panel width as configured.
    pub width: int,
    /// The data line of the display's bus.
    pub sda: Line,
    /// The clock line of the display's bus.
    pub scl: Line,
    /// The text that the transport shows next.
    pub text: Seq<char>,
}

impl OledView {
    /// A bus needs two different lines that can be driven.
    pub open spec fn wired(self) -> bool {
        self.sda.is_writable() && self.scl.is_writable() && self.sda.id != self.scl.id
    }
}

/// The display's text sink: it holds what is to be shown and the lines of
/// the bus that carries it. Putting the text on the panel is the
/// transport's work.
#[derive(Debug)]
pub struct OLED {
    height: u32,
    width: u32,
    sda: Line,
    scl: Line,
    text: String,
}

impl View for OLED {
    type V = OledView;

    closed spec fn view(&self) -> OledView {
        OledView {
            height: self.height as int,
            width: self.width as int,
            sda: self.sda,
            scl: self.scl,
            text: self.text@,
        }
    }
}

impl OLED {
    /// A sink on the given bus lines that shows the greeting.
    pub fn new(sda: Line, scl: Line) -> (oled: OLED)
        ensures
            oled@ == (OledView { height: 128, width: 32, sda, scl, text: GREETING@ }),
    {
        OLED { height: 128, width: 32, sda, scl, text: String::from_str(GREETING) }
    }

    /// Replaces the text to show.
    pub fn update_text(&mut self, message: &str)
        ensures
            final(self)@ == (OledView { text: message@, ..old(self)@ }),
    {
        self.text = String::from_str(message);
    }

    /// The text to hand to the transport.
    pub fn display_text(&self) -> (shown: &str)
        ensures
            shown@ == self@.text,
    {
        self.text.as_str()
    }

    /// Panel height as configured.
    pub fn height(&self) -> (height: u32)
        ensures
            height == self@.height,
    {
        self.height
    }

    /// Panel width as configured.
    pub fn width(&self) -> (width: u32)
        ensures
            width == self@.width,
    {
        self.width
    }

    /// The data line of the display's bus.
    pub fn sda(&self) -> (line: Line)
        ensures
            line == self@.sda,
    {
        self.sda
    }

    /// The clock line of the display's bus.
    pub fn scl(&self) -> (line: Line)
        ensures
            line == self@.scl,
    {
        self.scl
    }
}

} // verus!
