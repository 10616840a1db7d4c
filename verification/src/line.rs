//! Digital lines: one terminal each, with a direction that never changes.

use vstd::prelude::*;

verus! {

/// Which way a line carries its level.
#[derive(Clone, Copy, Debug, PartialEq, Eq, Structural)]
pub enum Direction {
    /// The line is sampled.
    Input,
    /// The line is driven.
    Output,
}

/// The resistor that settles an input nobody drives.
#[derive(Clone, Copy, Debug, PartialEq, Eq, Structural)]
pub enum Pull {
    /// No resistor.
    Floating,
    /// Reads high when left alone.
    Up,
    /// Reads low when left alone.
    Down,
}

/// Why a line refused an operation.
#[derive(Clone, Copy, Debug, PartialEq, Eq, Structural)]
pub enum LineError {
    /// A read was asked of an output.
    NotReadable,
    /// A write was asked of an input.
    NotWritable,
}

/// What the control loop asks of the world outside it.
#[derive(Clone, Copy, Debug, PartialEq, Eq, Structural)]
pub enum Action {
    /// Sample the line once and report its level.
    Read(Line),
    /// Drive the line to the level.
    Drive(Line, bool),
    /// Block for this many milliseconds.
    Delay(u32),
    /// Hand the display's current text to its transport.
    Show,
    /// Stop for good: nothing further will be asked.
    Halt,
}

/// What the world answers to the last [`Action`].
#[derive(Clone, Copy, Debug, PartialEq, Eq, Structural)]
pub enum Event {
    /// The action was carried out and has nothing to report.
    Done,
    /// The level a read found: `true` is electrically high.
    Level(bool),
    /// The action could not be carried out.
    Failed,
}

/// One digital terminal. A line is a plain description: the component that
/// owns it keeps it for good, so its direction holds for the line's lifetime.
#[derive(Clone, Copy, Debug, PartialEq, Eq, Structural)]
pub struct Line {
    /// The logical pin this line stands for.
    pub id: u8,
    /// Sampled or driven.
    pub direction: Direction,
    /// How an undriven input settles; outputs carry `Pull::Floating`.
    pub pull: Pull,
}

impl Line {
    /// An input on pin `id` with the given pull.
    pub fn input(id: u8, pull: Pull) -> (line: Line)
        ensures
            line == (Line { id, direction: Direction::Input, pull }),
    {
        Line { id, direction: Direction::Input, pull }
    }

    /// A push-pull output on pin `id`.
    pub fn output(id: u8) -> (line: Line)
        ensures
            line == (Line { id, direction: Direction::Output, pull: Pull::Floating }),
    {
        Line { id, direction: Direction::Output, pull: Pull::Floating }
    }

    /// Whether the line can be sampled.
    pub open spec fn is_readable(self) -> bool {
        self.direction == Direction::Input
    }

    /// Whether the line can be driven.
    pub open spec fn is_writable(self) -> bool {
        self.direction == Direction::Output
    }

    /// Whether the line can be sampled.
    pub fn readable(&self) -> (yes: bool)
        ensures
            yes == self.is_readable(),
    {
        match self.direction {
            Direction::Input => true,
            Direction::Output => false,
        }
    }

    /// Whether the line can be driven.
    pub fn writable(&self) -> (yes: bool)
        ensures
            yes == self.is_writable(),
    {
        match self.direction {
            Direction::Input => false,
            Direction::Output => true,
        }
    }

    /// The request to sample this line. Only an input can be read; the level
    /// itself comes back from the hardware as [`Event::Level`], with the
    /// line's pull already applied.
    pub fn read(&self) -> (request: Result<Action, LineError>)
        ensures
            self.is_readable() ==> request == Ok::<Action, LineError>(Action::Read(*self)),
            !self.is_readable() ==> request == Err::<Action, LineError>(LineError::NotReadable),
    {
        if self.readable() {
            Ok(Action::Read(*self))
        } else {
            Err(LineError::NotReadable)
        }
    }

    /// The request to drive this line to `level`. Only an output can be set.
    pub fn set(&self, level: bool) -> (request: Result<Action, LineError>)
        ensures
            self.is_writable() ==> request == Ok::<Action, LineError>(Action::Drive(*self, level)),
            !self.is_writable() ==> request == Err::<Action, LineError>(LineError::NotWritable),
    {
        if self.writable() {
            Ok(Action::Drive(*self, level))
        } else {
            Err(LineError::NotWritable)
        }
    }
}

} // verus!
