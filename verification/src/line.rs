//! The layout of an emitted line.

use crate::level::{Level, Tint};
use crate::record::{Record, RecordView};
use crate::text::{lemma_padded_right, pad_right, padded_right};
use crate::timestamp::{lemma_timestamp_shape, Reading, Timestamp};
use vstd::prelude::*;
use vstd::string::*;

verus! {

/// Width of the location field.
pub const LOCATION_WIDTH: usize = 20;

/// Width of the severity tag between its brackets.
pub const TAG_WIDTH: usize = 5;

/// The severity tag without colour: the name, left-aligned in its field.
pub open spec fn plain_tag(level: Level) -> Seq<char> {
    padded_right(level.name(), TAG_WIDTH as nat)
}

/// The severity tag in its colour. The colour encloses the whole field, so
/// the padding is coloured with the name.
pub open spec fn tinted_tag(level: Level) -> Seq<char> {
    match level.tint() {
        Some(tint) => tint.wrap(plain_tag(level)),
        None => plain_tag(level),
    }
}

/// The severity tag followed by the reset sequence alone: what is shown
/// where colouring is switched off in the middle of colouring a tag.
pub open spec fn reset_tag(level: Level) -> Seq<char> {
    match level.tint() {
        Some(tint) => plain_tag(level) + Tint::reset(),
        None => plain_tag(level),
    }
}

/// `tag` is the severity tag of `level`: plain, in colour, or plain with a
/// reset sequence after it.
pub open spec fn is_tag(level: Level, tag: Seq<char>) -> bool {
    tag == plain_tag(level) || tag == tinted_tag(level) || tag == reset_tag(level)
}

/// One line of output:
/// `<timestamp> <location, 20 wide> [<tag>] <message>` and a line feed.
pub open spec fn line_text(stamp: Reading, record: RecordView, tag: Seq<char>) -> Seq<char> {
    stamp.text() + seq![' '] + padded_right(record.location(), LOCATION_WIDTH as nat) + seq![
        ' ',
        '[',
    ] + tag + seq![']', ' '] + record.message + seq!['\n']
}

/// Writes the severity tag of `level` without colour.
pub fn render_plain_tag(level: Level) -> (out: String)
    ensures
        out@ == plain_tag(level),
{
    pad_right(level.as_str(), TAG_WIDTH)
}

/// Writes the line for `record`, stamped with `stamp` and tagged with `tag`.
pub fn format_line(stamp: &Timestamp, record: &Record, tag: &str) -> (out: String)
    ensures
        out@ == line_text(stamp@, record@, tag@),
{
    proof {
        reveal_strlit(" ");
        reveal_strlit(" [");
        reveal_strlit("] ");
        reveal_strlit("\n");
    }
    let mut out = stamp.render();
    out.append(" ");
    out.append(pad_right(record.location().as_str(), LOCATION_WIDTH).as_str());
    out.append(" [");
    out.append(tag);
    out.append("] ");
    out.append(record.message.as_str());
    out.append("\n");
    assert(out@ =~= line_text(stamp@, record@, tag@));
    out
}

/// An uncoloured tag fills its field exactly: no severity name is longer
/// than the field.
pub proof fn lemma_plain_tag_width(level: Level)
    ensures
        plain_tag(level).len() == TAG_WIDTH,
        plain_tag(level).subrange(0, level.name().len() as int) == level.name(),
{
    lemma_padded_right(level.name(), TAG_WIDTH as nat);
}

/// Where the fields of a line stand, for a valid reading in the years 0 to
/// 9999: the timestamp in columns 0 to 22, a space, the location field from
/// column 24 on, then ` [`, the tag, `] `, the message, and one line feed at
/// the very end.
pub proof fn lemma_line_layout(stamp: Reading, record: RecordView, tag: Seq<char>)
    requires
        stamp.valid(),
        0 <= stamp.year <= 9999,
    ensures
        ({
            let line = line_text(stamp, record, tag);
            let field = padded_right(record.location(), LOCATION_WIDTH as nat);
            let open: int = 24 + field.len() as int;
            let close: int = open + 2 + tag.len();
            &&& field.len() >= LOCATION_WIDTH
            &&& line.len() == close + 2 + record.message.len() + 1
            &&& line.subrange(0, 23) == stamp.text()
            &&& line[23] == ' '
            &&& line.subrange(24, open) == field
            &&& line[open] == ' '
            &&& line[open + 1] == '['
            &&& line.subrange(open + 2, close) == tag
            &&& line[close] == ']'
            &&& line[close + 1] == ' '
            &&& line.subrange(close + 2, line.len() - 1) == record.message
            &&& line.last() == '\n'
        }),
{
    lemma_timestamp_shape(stamp);
    lemma_padded_right(record.location(), LOCATION_WIDTH as nat);
    let line = line_text(stamp, record, tag);
    let field = padded_right(record.location(), LOCATION_WIDTH as nat);
    let open: int = 24 + field.len() as int;
    let close: int = open + 2 + tag.len();
    assert(line.subrange(0, 23) =~= stamp.text());
    assert(line.subrange(24, open) =~= field);
    assert(line.subrange(open + 2, close) =~= tag);
    assert(line.subrange(close + 2, line.len() - 1) =~= record.message);
}

} // verus!
