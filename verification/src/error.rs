use vstd::prelude::*;

verus! {

/// What can go wrong while a frame is sampled, composed or laid out.
#[derive(Clone, Copy, Debug, PartialEq, Eq, Structural)]
pub enum ClockError {
    /// The requested font id names no registered font.
    UnknownFont,
    /// The system clock could not report the time elapsed since the epoch.
    TimeSourceUnavailable,
    /// A character that is not a decimal digit was handed to the digit lookup.
    InvalidSymbol,
    /// Centering was requested but the terminal did not report its size.
    TerminalUnavailable,
}

impl ClockError {
    /// Configuration errors end the program; the others only cost one repaint.
    pub open spec fn fatal(self) -> bool {
        self is UnknownFont || self is TimeSourceUnavailable
    }

    /// What the user is told about the error.
    pub open spec fn text(self) -> Seq<char> {
        match self {
            ClockError::UnknownFont => "Unknown character set"@,
            ClockError::TimeSourceUnavailable => "System clock is set before the epoch"@,
            ClockError::InvalidSymbol => "Decimal digit not in 0..10"@,
            ClockError::TerminalUnavailable => "Terminal size is not available"@,
        }
    }

    /// The words for the user.
    pub fn message(&self) -> (text: &'static str)
        ensures
            text@ == self.text(),
    {
        match self {
            ClockError::UnknownFont => "Unknown character set",
            ClockError::TimeSourceUnavailable => "System clock is set before the epoch",
            ClockError::InvalidSymbol => "Decimal digit not in 0..10",
            ClockError::TerminalUnavailable => "Terminal size is not available",
        }
    }

    /// Whether the program has to end on this error.
    pub fn is_fatal(&self) -> (b: bool)
        ensures
            b == self.fatal(),
    {
        match self {
            ClockError::UnknownFont => true,
            ClockError::TimeSourceUnavailable => true,
            ClockError::InvalidSymbol => false,
            ClockError::TerminalUnavailable => false,
        }
    }
}

} // verus!
