//! Display lines made of coloured pieces of text.

use vstd::prelude::*;

verus! {

/// The colour in which a piece of text is drawn.
#[derive(Clone, Copy, Debug, PartialEq, Eq, Structural)]
pub enum Hue {
    Plain,
    Yellow,
    Green,
    Red,
    Blue,
    White,
    LightBlue,
    LightGreen,
    LightRed,
    LightYellow,
    /// A colour of the terminal's palette of 256.
    Indexed(u8),
}

/// A piece of text with its colour and weight.
#[derive(Clone, Debug, PartialEq, Eq)]
pub struct Span {
    pub text: String,
    pub hue: Hue,
    pub bold: bool,
}

/// What a [`Span`] stands for: its characters, colour and weight.
pub struct SpanView {
    pub text: Seq<char>,
    pub hue: Hue,
    pub bold: bool,
}

impl View for Span {
    type V = SpanView;

    open spec fn view(&self) -> SpanView {
        SpanView { text: self.text@, hue: self.hue, bold: self.bold }
    }
}

/// One display line: its spans from left to right.
#[derive(Clone, Debug, PartialEq, Eq)]
pub struct Line {
    pub spans: Vec<Span>,
}

/// The views of the spans of `spans`.
pub open spec fn span_views(spans: Seq<Span>) -> Seq<SpanView> {
    Seq::new(spans.len(), |i: int| spans[i]@)
}

impl View for Line {
    type V = Seq<SpanView>;

    open spec fn view(&self) -> Seq<SpanView> {
        span_views(self.spans@)
    }
}

/// A span of `text` in the colour `hue`, not bold.
pub open spec fn tinted(text: Seq<char>, hue: Hue) -> SpanView {
    SpanView { text, hue, bold: false }
}

/// A span of `text` without colour or weight.
pub open spec fn plain(text: Seq<char>) -> SpanView {
    SpanView { text, hue: Hue::Plain, bold: false }
}

/// A bold span of `text` in the colour `hue`.
pub open spec fn strong(text: Seq<char>, hue: Hue) -> SpanView {
    SpanView { text, hue, bold: true }
}

/// The line without any text: one empty plain span.
pub open spec fn blank() -> Seq<SpanView> {
    seq![plain(Seq::empty())]
}

/// The views of the lines of `lines`.
pub open spec fn line_views(lines: Seq<Line>) -> Seq<Seq<SpanView>> {
    Seq::new(lines.len(), |i: int| lines[i]@)
}

impl Span {
    /// A span of `text` in the colour `hue`, not bold.
    pub fn tinted(text: String, hue: Hue) -> (span: Span)
        ensures
            span@ == tinted(text@, hue),
    {
        Span { text, hue, bold: false }
    }

    /// A span of `text` without colour or weight.
    pub fn raw(text: String) -> (span: Span)
        ensures
            span@ == plain(text@),
    {
        Span { text, hue: Hue::Plain, bold: false }
    }

    /// A bold span of `text` in the colour `hue`.
    pub fn strong(text: String, hue: Hue) -> (span: Span)
        ensures
            span@ == strong(text@, hue),
    {
        Span { text, hue, bold: true }
    }

    /// A span with the same text, colour and weight.
    pub fn copy(&self) -> (span: Span)
        ensures
            span@ == self@,
    {
        Span { text: self.text.clone(), hue: self.hue, bold: self.bold }
    }
}

/// Adds `span` at the end of `spans`.
pub fn push_span(spans: &mut Vec<Span>, span: Span)
    ensures
        span_views(final(spans)@) == span_views(old(spans)@).push(span@),
{
    spans.push(span);
    assert(span_views(spans@) =~= span_views(old(spans)@).push(span@));
}

/// Adds `line` at the end of `lines`.
pub fn push_line(lines: &mut Vec<Line>, line: Line)
    ensures
        line_views(final(lines)@) == line_views(old(lines)@).push(line@),
{
    lines.push(line);
    assert(line_views(lines@) =~= line_views(old(lines)@).push(line@));
}

/// Adds the lines of `more` at the end of `lines`, in their order.
pub fn append_lines(lines: &mut Vec<Line>, more: Vec<Line>)
    ensures
        line_views(final(lines)@) == line_views(old(lines)@) + line_views(more@),
{
    let mut more = more;
    let ghost added = more@;
    lines.append(&mut more);
    assert(line_views(lines@) =~= line_views(old(lines)@) + line_views(added));
}

impl Line {
    /// The line that holds `spans`.
    pub fn from_spans(spans: Vec<Span>) -> (line: Line)
        ensures
            line.spans == spans,
            line@ == span_views(spans@),
    {
        Line { spans }
    }

    /// The line without any text.
    pub fn blank() -> (line: Line)
        ensures
            line@ == blank(),
    {
        Line::raw(String::new())
    }

    /// A line with the same spans.
    pub fn copy(&self) -> (line: Line)
        ensures
            line@ == self@,
    {
        let mut spans: Vec<Span> = Vec::new();
        let mut i: usize = 0;
        while i < self.spans.len()
            invariant
                i <= self.spans.len(),
                spans@.len() == i,
                forall|k: int| 0 <= k < i ==> spans@[k]@ == self.spans@[k]@,
            decreases self.spans.len() - i,
        {
            spans.push(self.spans[i].copy());
            i += 1;
        }
        assert(span_views(spans@) =~= span_views(self.spans@));
        Line { spans }
    }

    /// The line that holds `text` as one plain span.
    pub fn raw(text: String) -> (line: Line)
        ensures
            line@ == seq![plain(text@)],
    {
        let mut spans: Vec<Span> = Vec::new();
        spans.push(Span::raw(text));
        let line = Line { spans };
        assert(line@ =~= seq![plain(text@)]);
        line
    }
}

} // verus!
