//! Change records as the browser holds them once they are fetched.

use vstd::prelude::*;
use crate::styled::{line_views, plain, tinted, Hue, Line, Span, SpanView};
use crate::text::{
    chars_of, find, find_text, lemma_find_from, lemma_rfind_char_before, lines_of, rfind,
    rfind_char, slice_text, split_lines, text_of,
};

verus! {

/// Identifier of a change record: a hash of fixed size.
#[derive(Clone, Copy, Debug, PartialEq, Eq)]
pub struct RecordId {
    pub bytes: [u8; 20],
}

impl View for RecordId {
    type V = Seq<u8>;

    open spec fn view(&self) -> Seq<u8> {
        self.bytes@
    }
}

/// The digit that stands for `nibble`, a number below sixteen, in lower-case
/// hexadecimal.
pub open spec fn hex_digit(nibble: u8) -> char {
    if nibble < 10 {
        (48 + nibble) as char
    } else {
        (87 + nibble) as char
    }
}

/// `bytes` in lower-case hexadecimal: two digits for each byte, the high
/// half first.
pub open spec fn hex_of(bytes: Seq<u8>) -> Seq<char> {
    Seq::new(
        2 * bytes.len(),
        |i: int|
            hex_digit(
                if i % 2 == 0 {
                    bytes[i / 2] / 16
                } else {
                    bytes[i / 2] % 16
                },
            ),
    )
}

fn digit(nibble: u8) -> (c: char)
    requires
        nibble < 16,
    ensures
        c == hex_digit(nibble),
{
    if nibble < 10 {
        (48 + nibble) as char
    } else {
        (87 + nibble) as char
    }
}

impl RecordId {
    /// The identifier that holds the hash `bytes`.
    pub fn from_bytes(bytes: [u8; 20]) -> (id: RecordId)
        ensures
            id@ == bytes@,
    {
        RecordId { bytes }
    }

    /// The first `digits` hexadecimal digits of the identifier, or all forty
    /// where `digits` is more.
    pub fn hex_prefix(&self, digits: usize) -> (text: String)
        ensures
            text@ == hex_of(self@).take(if digits < 40 {
                digits as int
            } else {
                40
            }),
    {
        let mut chars: Vec<char> = Vec::new();
        let mut i: usize = 0;
        while i < 20
            invariant
                i <= 20,
                chars@ == hex_of(self@).take(2 * i),
            decreases 20 - i,
        {
            let byte: u8 = self.bytes[i];
            let ghost before = chars@;
            chars.push(digit(byte / 16));
            chars.push(digit(byte % 16));
            assert(chars@ =~= hex_of(self@).take(2 * (i + 1)));
            i += 1;
        }
        if digits < 40 {
            chars.truncate(digits);
        }
        assert(chars@ =~= hex_of(self@).take(if digits < 40 {
            digits as int
        } else {
            40
        }));
        text_of(&chars)
    }

    /// The identifier in hexadecimal, forty digits.
    pub fn to_hex(&self) -> (text: String)
        ensures
            text@ == hex_of(self@),
    {
        let text = self.hex_prefix(40);
        assert(hex_of(self@).take(40) =~= hex_of(self@));
        text
    }

    /// Whether the two identifiers hold the same hash.
    pub fn same(&self, other: &RecordId) -> (equal: bool)
        ensures
            equal == (self@ == other@),
    {
        let mut i: usize = 0;
        while i < 20
            invariant
                i <= 20,
                forall|j: int| 0 <= j < i ==> self.bytes@[j] == other.bytes@[j],
            decreases 20 - i,
        {
            if self.bytes[i] != other.bytes[i] {
                return false;
            }
            i += 1;
        }
        assert(self@ =~= other@);
        true
    }
}

/// What happened to a file in a change record.
#[derive(Clone, Copy, Debug, PartialEq, Eq, Structural)]
pub enum Delta {
    Unmodified,
    Added,
    Deleted,
    Modified,
    Renamed,
    Copied,
    Ignored,
    Untracked,
    Typechange,
    Unreadable,
    Conflicted,
}

/// One file change of a record, with the bytes of the path of the file
/// after the change and before it. A path is absent where the history holds
/// none.
#[derive(Clone, Debug, PartialEq, Eq)]
pub struct FileChange {
    pub path: Option<Vec<u8>>,
    pub old_path: Option<Vec<u8>>,
    pub status: Delta,
}

/// A change record. Nothing in it changes once it is fetched.
#[derive(Clone, Debug, PartialEq, Eq)]
pub struct CommitInfo {
    pub commit_id: RecordId,
    pub author_name: String,
    pub author_email: String,
    pub time: String,
    pub summary: String,
    pub message: String,
    pub files: Vec<FileChange>,
    pub stats: Vec<Line>,
}

impl CommitInfo {
    /// The number of files that the record changes.
    pub fn num_files(&self) -> (n: usize)
        ensures
            n == self.files@.len(),
    {
        self.files.len()
    }
}

/// The spans of one line of a record's statistics. A line of the shape
/// `path | count sigils` keeps its text up to the sigils plain, and shows the
/// sigils before their first `-` in green and those after it in red; that
/// `-` itself is not shown. Any other line is shown as it is.
pub open spec fn stat_spans(line: Seq<char>) -> Seq<SpanView> {
    match find(line, seq![' ', '|', ' ']) {
        Some(bar) => {
            let changes = line.skip(bar + 3);
            match rfind_char(changes, ' ') {
                Some(gap) => {
                    let sigils = changes.skip(gap + 1);
                    let head = line.take(bar) + seq![' ', '|', ' '] + changes.take(gap) + seq![' '];
                    match find(sigils, seq!['-']) {
                        Some(dash) => seq![
                            plain(head),
                            tinted(sigils.take(dash), Hue::Green),
                            tinted(sigils.skip(dash + 1), Hue::Red),
                        ],
                        None => seq![
                            plain(head),
                            tinted(sigils, Hue::Green),
                            tinted(Seq::empty(), Hue::Red),
                        ],
                    }
                },
                None => seq![plain(line)],
            }
        },
        None => seq![plain(line)],
    }
}

/// The display lines of a record's statistics: one for each line of
/// `text`.
pub open spec fn stat_lines(text: Seq<char>) -> Seq<Seq<SpanView>> {
    Seq::new(lines_of(text).len(), |i: int| stat_spans(lines_of(text)[i]))
}

/// One line of a record's statistics as a display line: see [`stat_spans`].
pub fn format_stat_line(line: &str) -> (shown: Line)
    ensures
        shown@ == stat_spans(line@),
{
    let chars = chars_of(line);
    let mut bar_pattern: Vec<char> = Vec::new();
    bar_pattern.push(' ');
    bar_pattern.push('|');
    bar_pattern.push(' ');
    assert(bar_pattern@ =~= seq![' ', '|', ' ']);
    let found = find_text(&chars, &bar_pattern);
    if let Some(bar) = found {
        proof {
            lemma_find_from(chars@, bar_pattern@, 0);
        }
        let total: usize = chars.len();
        assert(bar + 3 <= total);
        let mut changes: Vec<char> = Vec::new();
        let mut i: usize = bar + 3;
        while i < chars.len()
            invariant
                bar + 3 <= i <= chars.len(),
                changes@ == chars@.subrange(bar + 3, i as int),
            decreases chars.len() - i,
        {
            changes.push(chars[i]);
            i += 1;
        }
        assert(changes@ =~= chars@.skip(bar + 3));
        if let Some(gap) = rfind(&changes, ' ') {
            proof {
                lemma_rfind_char_before(changes@, ' ', changes@.len() as int);
            }
            let mut sigils: Vec<char> = Vec::new();
            let mut j: usize = gap + 1;
            while j < changes.len()
                invariant
                    gap + 1 <= j <= changes.len(),
                    sigils@ == changes@.subrange(gap + 1, j as int),
                decreases changes.len() - j,
            {
                sigils.push(changes[j]);
                j += 1;
            }
            assert(sigils@ =~= changes@.skip(gap + 1));
            let head = slice_text(&chars, 0, bar + 3 + gap + 1);
            assert(head@ =~= chars@.take(bar as int) + seq![' ', '|', ' '] + changes@.take(
                gap as int,
            ) + seq![' ']) by {
                assert(chars@.subrange(bar as int, bar + 3) == bar_pattern@);
                assert forall|k: int| 0 <= k < 3 implies chars@[bar + k] == bar_pattern@[k] by {
                    assert(chars@.subrange(bar as int, bar + 3)[k] == chars@[bar + k]);
                }
                assert(changes@[gap as int] == ' ');
            }
            let mut dash_pattern: Vec<char> = Vec::new();
            dash_pattern.push('-');
            assert(dash_pattern@ =~= seq!['-']);
            let (insertions, deletions) = match find_text(&sigils, &dash_pattern) {
                Some(dash) => {
                    proof {
                        lemma_find_from(sigils@, dash_pattern@, 0);
                    }
                    (slice_text(&sigils, 0, dash), slice_text(&sigils, dash + 1, sigils.len()))
                },
                None => (text_of(&sigils), String::new()),
            };
            let mut spans: Vec<Span> = Vec::new();
            spans.push(Span::raw(head));
            spans.push(Span::tinted(insertions, Hue::Green));
            spans.push(Span::tinted(deletions, Hue::Red));
            let shown = Line::from_spans(spans);
            assert(shown@ =~= stat_spans(line@));
            return shown;
        }
    }
    Line::raw(text_of(&chars))
}

/// What the history provider hands over for one record. A text is absent
/// where the history holds none that can be shown.
#[derive(Debug)]
pub struct RawCommit {
    pub commit_id: RecordId,
    pub author_name: Option<String>,
    pub author_email: Option<String>,
    pub time: Option<String>,
    pub summary: Option<String>,
    pub message: Option<String>,
    pub files: Vec<FileChange>,
    pub stat_text: Option<String>,
}

/// The characters of `text`, none where it is absent.
pub open spec fn text_or_empty(text: Option<String>) -> Seq<char> {
    match text {
        Some(held) => held@,
        None => Seq::empty(),
    }
}

fn or_empty(text: Option<String>) -> (held: String)
    ensures
        held@ == text_or_empty(text),
{
    match text {
        Some(held) => held,
        None => String::new(),
    }
}

/// The record made of what the provider handed over: absent texts become
/// empty ones, and each line of the statistics becomes a display line.
pub fn next_commit(raw: RawCommit) -> (record: CommitInfo)
    ensures
        record.commit_id == raw.commit_id,
        record.author_name@ == text_or_empty(raw.author_name),
        record.author_email@ == text_or_empty(raw.author_email),
        record.time@ == text_or_empty(raw.time),
        record.summary@ == text_or_empty(raw.summary),
        record.message@ == text_or_empty(raw.message),
        record.files == raw.files,
        line_views(record.stats@) == stat_lines(text_or_empty(raw.stat_text)),
{
    let stat_text = or_empty(raw.stat_text);
    let lines = split_lines(stat_text.as_str());
    let mut stats: Vec<Line> = Vec::new();
    let mut i: usize = 0;
    while i < lines.len()
        invariant
            i <= lines.len(),
            lines.deep_view() == lines_of(stat_text@),
            stats@.len() == i,
            forall|k: int| 0 <= k < i ==> stats@[k]@ == stat_spans(lines_of(stat_text@)[k]),
        decreases lines.len() - i,
    {
        assert(lines.deep_view()[i as int] == lines@[i as int]@);
        stats.push(format_stat_line(lines[i].as_str()));
        i += 1;
    }
    assert(lines.deep_view().len() == lines@.len());
    assert(line_views(stats@) =~= stat_lines(stat_text@));
    CommitInfo {
        commit_id: raw.commit_id,
        author_name: or_empty(raw.author_name),
        author_email: or_empty(raw.author_email),
        time: or_empty(raw.time),
        summary: or_empty(raw.summary),
        message: or_empty(raw.message),
        files: raw.files,
        stats,
    }
}

impl FileChange {
    /// Whether the change leaves content that can be shown: the file still
    /// exists after the change and its path is known.
    pub open spec fn showable(self) -> bool {
        !(self.status is Deleted) && self.path is Some
    }

    /// Whether the change leaves content that can be shown.
    pub fn is_showable(&self) -> (yes: bool)
        ensures
            yes == self.showable(),
    {
        let deleted = match self.status {
            Delta::Deleted => true,
            _ => false,
        };
        !deleted && self.path.is_some()
    }
}

} // verus!
