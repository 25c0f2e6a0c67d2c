//! Soft wrapping of text to the width of a pane.

use vstd::prelude::*;
use ratatui::widgets::{Block, Paragraph, Wrap};
use crate::cursor::{cap_rows, capped};
use crate::layout::Rect;
use crate::styled::{line_views, plain, Line, SpanView};

verus! {

/// The lines into which `line` is wrapped for a pane of `width` columns, the
/// first of them after `indent`.
pub uninterp spec fn wrapped(line: Seq<char>, indent: Seq<char>, width: u16) -> Seq<Seq<char>>;

/// The number of rows that a bordered paragraph of `text` takes once it is
/// wrapped to `width` columns, its borders included; `trim` says whether the
/// wrapping drops the blanks at the start of a line.
pub uninterp spec fn paragraph_rows(text: Seq<char>, trim: bool, width: u16) -> nat;

/// `textwrap::wrap` with an indent for the first line: the lines into which
/// `line` is wrapped.
#[verifier::external_body]
pub(crate) fn wrap_text(line: &str, indent: &str, width: u16) -> (lines: Vec<String>)
    ensures
        lines.deep_view() == wrapped(line@, indent@, width),
{
    let options = textwrap::Options::new(width.into()).initial_indent(indent);
    textwrap::wrap(line, options).into_iter().map(|piece| piece.to_string()).collect()
}

/// `Paragraph::line_count` of a bordered, wrapped paragraph: the number of
/// rows that `text` takes at this width.
#[verifier::external_body]
pub(crate) fn bordered_rows(text: &str, trim: bool, width: u16) -> (rows: usize)
    ensures
        rows == paragraph_rows(text@, trim, width),
{
    Paragraph::new(text).block(Block::bordered()).wrap(Wrap { trim }).line_count(width)
}

/// The display lines of one wrapped line of a record's text: the pieces of
/// [`wrapped`] with an indent of four blanks, each a plain line.
pub open spec fn wrapped_lines(line: Seq<char>, width: u16) -> Seq<Seq<SpanView>> {
    let pieces = wrapped(line, "    "@, width);
    Seq::new(pieces.len(), |i: int| seq![plain(pieces[i])])
}

/// The display lines of `pieces`, each a plain line.
pub fn plain_lines(pieces: Vec<String>) -> (lines: Vec<Line>)
    ensures
        line_views(lines@) == Seq::new(
            pieces.deep_view().len(),
            |i: int| seq![plain(pieces.deep_view()[i])],
        ),
{
    let mut lines: Vec<Line> = Vec::new();
    let mut i: usize = 0;
    while i < pieces.len()
        invariant
            i <= pieces.len(),
            lines@.len() == i,
            forall|k: int| 0 <= k < i ==> lines@[k]@ == seq![plain(pieces@[k]@)],
        decreases pieces.len() - i,
    {
        lines.push(Line::raw(pieces[i].clone()));
        i += 1;
    }
    assert(line_views(lines@) =~= Seq::new(
        pieces.deep_view().len(),
        |i: int| seq![plain(pieces.deep_view()[i])],
    ));
    lines
}

/// Wraps one line of a record's text to `width` columns: see
/// [`wrapped_lines`].
pub fn wrap_line(line: &str, width: u16) -> (lines: Vec<Line>)
    ensures
        line_views(lines@) == wrapped_lines(line@, width),
{
    plain_lines(wrap_text(line, "    ", width))
}

/// The number of rows of a record's message in a bordered pane of `width`
/// columns, the borders included and blanks at the start of a line kept.
pub open spec fn message_rows(message: Seq<char>, width: u16) -> int {
    capped(paragraph_rows(message, false, width))
}

/// The number of rows of a record's message in a bordered pane of `width`
/// columns: see [`message_rows`].
pub fn message_line_count(message: &str, width: u16) -> (rows: u16)
    ensures
        rows == message_rows(message@, width),
{
    cap_rows(bordered_rows(message, false, width))
}

/// The rows of content of `rows` rows that do not fit into `height` rows.
pub open spec fn rows_beyond(rows: int, height: u16) -> int {
    if rows < height {
        0
    } else {
        rows - height
    }
}

/// The greatest number of rows of `message` to scroll past in `pane`: the
/// rows that do not fit into it.
pub open spec fn message_limit(message: Seq<char>, pane: Rect) -> u16 {
    rows_beyond(message_rows(message, pane.width), pane.height) as u16
}

/// The rows of content of `rows` rows that do not fit into `height` rows:
/// see [`rows_beyond`].
pub fn rows_past(rows: u16, height: u16) -> (beyond: u16)
    ensures
        beyond == rows_beyond(rows as int, height),
{
    rows.saturating_sub(height)
}

/// The greatest number of rows of `message` to scroll past in `pane`: see
/// [`message_limit`].
pub fn message_scroll_limit(message: &str, pane: Rect) -> (limit: u16)
    ensures
        limit == message_limit(message@, pane),
{
    rows_past(message_line_count(message, pane.width), pane.height)
}

} // verus!
