//! The sink: which records it takes, and the line it emits for each.

use crate::level::{Level, Tint};
use crate::line::{
    format_line, is_tag, line_text, plain_tag, render_plain_tag, reset_tag, tinted_tag,
};
use crate::record::Record;
use crate::timestamp::Timestamp;
use vstd::prelude::*;
use vstd::string::*;

verus! {

/// The console sink. It keeps no state of its own: the clock and the output
/// handle belong to whoever stamps the records and writes the lines that
/// [`ConsoleLogger::log`] hands out.
#[derive(Clone, Copy, Debug)]
pub struct ConsoleLogger {}

/// Shows `text` in the foreground colour `tint`.
///
/// Trusted: the body calls `colored::Colorize::color` on `text` and renders
/// the result through its `Display`. colored decides from the environment,
/// the terminal and its own process-wide switch whether to colour, and asks
/// that switch anew for the prefix after it has decided to colour at all.
/// So the contract leaves three outcomes open: the text unchanged; the text
/// between `ESC [ <code> m` and `ESC [ 0 m`; or, where another thread turns
/// the switch off in between, the text followed by `ESC [ 0 m` alone. Texts
/// that hold an escape character are left out, since colored rewrites reset
/// sequences inside the text.
#[verifier::external_body]
fn paint(text: &str, tint: Tint) -> (out: String)
    requires
        forall|i: int| 0 <= i < text@.len() ==> text@[i] != '\u{1b}',
    ensures
        out@ == text@ || out@ == tint.wrap(text@) || out@ == text@ + Tint::reset(),
{
    let color = match tint {
        Tint::Red => colored::Color::Red,
        Tint::Yellow => colored::Color::Yellow,
        Tint::Cyan => colored::Color::Cyan,
        Tint::Magenta => colored::Color::Magenta,
    };
    colored::Colorize::color(text, color).to_string()
}

impl ConsoleLogger {
    /// The least severe level that the sink still takes.
    pub open spec fn threshold() -> Level {
        Level::Info
    }

    /// Whether the sink takes records of `level`.
    pub open spec fn accepts(level: Level) -> bool {
        level.rank() <= Self::threshold().rank()
    }

    /// Whether records of `level` are emitted: `Error`, `Warn` and `Info`
    /// are, `Debug` and `Trace` are not.
    pub fn enabled(&self, level: Level) -> (b: bool)
        ensures
            b == Self::accepts(level),
            b <==> (level is Error || level is Warn || level is Info),
    {
        level.at_least(Level::Info)
    }

    /// The severity tag of `level` as the terminal is to show it: in the
    /// level's colour where colouring is in effect, plain where it is not,
    /// and plain with a reset sequence after it where colouring is switched
    /// off while the tag is being coloured.
    pub fn tag(level: Level) -> (out: String)
        ensures
            is_tag(level, out@),
            level.tint() is None ==> out@ == plain_tag(level),
    {
        let plain = render_plain_tag(level);
        match level.style() {
            Some(tint) => {
                assert forall|i: int| 0 <= i < plain@.len() implies plain@[i] != '\u{1b}' by {
                    let name = level.name();
                    if i < name.len() {
                        assert(plain@[i] == name[i]);
                    } else {
                        assert(plain@[i] == ' ');
                    }
                }
                paint(plain.as_str(), tint)
            },
            None => plain,
        }
    }

    /// The line to write for `record`, given the clock reading and the tag
    /// to use, or `None` where the record's level is filtered out.
    pub fn compose(&self, record: &Record, stamp: &Timestamp, tag: &str) -> (out: Option<String>)
        ensures
            match out {
                Some(line) => Self::accepts(record.level) && line@ == line_text(
                    stamp@,
                    record@,
                    tag@,
                ),
                None => !Self::accepts(record.level),
            },
    {
        if self.enabled(record.level) {
            Some(format_line(stamp, record, tag))
        } else {
            None
        }
    }

    /// Handles one record that reached the sink at the clock reading
    /// `stamp`: hands out the line to write, or `None` where the record's
    /// level is filtered out. Nothing is formatted for a record that is
    /// filtered out. The tag is one of the three forms that
    /// [`ConsoleLogger::tag`] can give.
    pub fn log(&self, record: &Record, stamp: &Timestamp) -> (out: Option<String>)
        ensures
            match out {
                Some(line) => Self::accepts(record.level) && (line@ == line_text(
                    stamp@,
                    record@,
                    plain_tag(record.level),
                ) || line@ == line_text(stamp@, record@, tinted_tag(record.level)) || line@
                    == line_text(stamp@, record@, reset_tag(record.level))),
                None => !Self::accepts(record.level),
            },
    {
        if !self.enabled(record.level) {
            return None;
        }
        let tag = Self::tag(record.level);
        self.compose(record, stamp, tag.as_str())
    }

    /// Nothing is buffered between records, so there is nothing to flush.
    pub fn flush(&self) {
    }

    /// What is left to do once the logging facade has answered the request
    /// to install this sink: where it took the sink, the facade's threshold
    /// is to be set to the level handed out; where it refused, nothing is
    /// done and nothing is reported.
    pub fn init(registered: bool) -> (threshold: Option<Level>)
        ensures
            threshold == (if registered {
                Some(Self::threshold())
            } else {
                None
            }),
    {
        if registered {
            Some(Level::Info)
        } else {
            None
        }
    }
}

} // verus!
