//! Severities, their tag text and their colours.

use vstd::prelude::*;

verus! {

/// Severity of a record, most severe first.
#[derive(Clone, Copy, Debug, PartialEq, Eq, Structural)]
pub enum Level {
    Error,
    Warn,
    Info,
    Debug,
    Trace,
}

/// Foreground colour of a severity tag.
#[derive(Clone, Copy, Debug, PartialEq, Eq, Structural)]
pub enum Tint {
    Red,
    Yellow,
    Cyan,
    Magenta,
}

impl Level {
    /// Position in the severity order: `Error` is 1, `Trace` is 5.
    pub open spec fn rank(self) -> nat {
        match self {
            Level::Error => 1,
            Level::Warn => 2,
            Level::Info => 3,
            Level::Debug => 4,
            Level::Trace => 5,
        }
    }

    /// The tag text: the severity's name in capitals.
    pub open spec fn name(self) -> Seq<char> {
        match self {
            Level::Error => seq!['E', 'R', 'R', 'O', 'R'],
            Level::Warn => seq!['W', 'A', 'R', 'N'],
            Level::Info => seq!['I', 'N', 'F', 'O'],
            Level::Debug => seq!['D', 'E', 'B', 'U', 'G'],
            Level::Trace => seq!['T', 'R', 'A', 'C', 'E'],
        }
    }

    /// The colour a tag is shown in; `Trace` is left unstyled.
    pub open spec fn tint(self) -> Option<Tint> {
        match self {
            Level::Error => Some(Tint::Red),
            Level::Warn => Some(Tint::Yellow),
            Level::Info => Some(Tint::Cyan),
            Level::Debug => Some(Tint::Magenta),
            Level::Trace => None,
        }
    }

    /// Whether `self` is at least as severe as `other`.
    pub fn at_least(self, other: Level) -> (b: bool)
        ensures
            b == (self.rank() <= other.rank()),
    {
        self.ordinal() <= other.ordinal()
    }

    /// The rank as a machine integer.
    pub fn ordinal(self) -> (n: u8)
        ensures
            n == self.rank(),
            1 <= n <= 5,
    {
        match self {
            Level::Error => 1,
            Level::Warn => 2,
            Level::Info => 3,
            Level::Debug => 4,
            Level::Trace => 5,
        }
    }

    /// The tag text as a string slice.
    pub fn as_str(self) -> (s: &'static str)
        ensures
            s@ == self.name(),
    {
        proof {
            reveal_strlit("ERROR");
            reveal_strlit("WARN");
            reveal_strlit("INFO");
            reveal_strlit("DEBUG");
            reveal_strlit("TRACE");
        }
        let s = match self {
            Level::Error => "ERROR",
            Level::Warn => "WARN",
            Level::Info => "INFO",
            Level::Debug => "DEBUG",
            Level::Trace => "TRACE",
        };
        assert(s@ =~= self.name());
        s
    }

    /// The colour of this severity's tag.
    pub fn style(self) -> (t: Option<Tint>)
        ensures
            t == self.tint(),
    {
        match self {
            Level::Error => Some(Tint::Red),
            Level::Warn => Some(Tint::Yellow),
            Level::Info => Some(Tint::Cyan),
            Level::Debug => Some(Tint::Magenta),
            Level::Trace => None,
        }
    }
}

impl Tint {
    /// The colour's number in an ANSI "select graphic rendition" sequence.
    pub open spec fn code(self) -> Seq<char> {
        match self {
            Tint::Red => seq!['3', '1'],
            Tint::Yellow => seq!['3', '3'],
            Tint::Cyan => seq!['3', '6'],
            Tint::Magenta => seq!['3', '5'],
        }
    }

    /// The ANSI sequence that resets all attributes.
    pub open spec fn reset() -> Seq<char> {
        seq!['\u{1b}', '[', '0', 'm']
    }

    /// `text` between the sequence that selects this colour and the one
    /// that resets all attributes.
    pub open spec fn wrap(self, text: Seq<char>) -> Seq<char> {
        seq!['\u{1b}', '['] + self.code() + seq!['m'] + text + Self::reset()
    }
}

} // verus!
