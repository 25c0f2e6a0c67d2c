//! The rendered content of a file, as the drawing library holds styled text.

use vstd::prelude::*;
use vstd::string::StringExecFns;
use ansi_to_tui::IntoText;
use ratatui::text::Text;
use crate::text::lines_of;

verus! {

/// `ratatui::text::Text`: styled text, carried as it is.
#[verifier::external_type_specification]
#[verifier::external_body]
pub struct ExText<'a>(Text<'a>);

/// `ansi_to_tui::Error`: why bytes could not be read as styled text.
#[verifier::external_type_specification]
#[verifier::external_body]
pub struct ExAnsiError(ansi_to_tui::Error);

/// What a text holds: the characters of each of its lines, from top to
/// bottom, without their styling.
pub uninterp spec fn text_rows(text: Text<'static>) -> Seq<Seq<char>>;

/// The rows of the styled text that `bytes` describe with escape sequences
/// for colour and style, or nothing where they cannot be read.
pub uninterp spec fn ansi_rows(bytes: Seq<u8>) -> Option<Seq<Seq<char>>>;

/// The lines of an unstyled text that shows `message`: its lines, or one
/// empty line where it is empty.
pub open spec fn message_lines(message: Seq<char>) -> Seq<Seq<char>> {
    if message.len() == 0 {
        seq![Seq::<char>::empty()]
    } else {
        lines_of(message)
    }
}

/// `Text::height`: the number of lines that the text holds.
#[verifier::external_body]
pub(crate) fn text_height(text: &Text<'static>) -> (height: usize)
    ensures
        height == text_rows(*text).len(),
{
    text.height()
}

/// `Text::raw`: unstyled text that holds the lines of `content`, and one
/// empty line where `content` is empty.
#[verifier::external_body]
pub(crate) fn raw_text(content: String) -> (text: Text<'static>)
    ensures
        text_rows(text) == message_lines(content@),
{
    Text::raw(content)
}

/// `IntoText::into_text` on bytes: the styled text that the bytes describe.
#[verifier::external_body]
pub(crate) fn parse_ansi(bytes: &Vec<u8>) -> (parsed: Result<Text<'static>, ansi_to_tui::Error>)
    ensures
        match parsed {
            Ok(text) => ansi_rows(bytes@) == Some(text_rows(text)),
            Err(_) => ansi_rows(bytes@) is None,
        },
{
    bytes.into_text()
}

/// `Display` of the parser's error: what went wrong, in words.
#[verifier::external_body]
pub(crate) fn ansi_error_text(error: &ansi_to_tui::Error) -> (text: String) {
    error.to_string()
}

/// The rendered content of one file with the number of rows scrolled past.
pub struct FileView {
    pub contents: Text<'static>,
    pub scroll: u16,
}

/// How an attempt to render the content of a file ended.
#[derive(Debug)]
pub enum ShowOutcome {
    /// The command that reads the content could not be started.
    SpawnFailed(String),
    /// The command that colours the content could not be run.
    FilterFailed(String),
    /// Both commands ran: whether the second succeeded, and what it wrote to
    /// its output and error streams.
    Finished { success: bool, stdout: Vec<u8>, stderr: Vec<u8> },
}

/// What is shown for a file once the attempt to render it has ended, given
/// what the parser said of the bytes it was handed, if it failed. A failure
/// to start or run a command is shown as its message. Otherwise the output
/// of the last command is shown where it succeeded and its error stream
/// where it did not, read as text with escape sequences; where that cannot
/// be read, the reason is shown.
pub open spec fn shown_rows(outcome: ShowOutcome, parse_failure: Seq<char>) -> Seq<Seq<char>> {
    match outcome {
        ShowOutcome::SpawnFailed(message) => message_lines("git show: "@ + message@),
        ShowOutcome::FilterFailed(message) => message_lines(message@),
        ShowOutcome::Finished { success, stdout, stderr } => {
            let bytes = if success {
                stdout@
            } else {
                stderr@
            };
            match ansi_rows(bytes) {
                Some(rows) => rows,
                None => message_lines("ansi_to_tui:\n"@ + parse_failure),
            }
        },
    }
}

/// The text of a parser failure with its heading.
pub fn unreadable_text(reason: String) -> (text: Text<'static>)
    ensures
        text_rows(text) == message_lines("ansi_to_tui:\n"@ + reason@),
{
    let mut message = "ansi_to_tui:\n".to_owned();
    message.append(reason.as_str());
    raw_text(message)
}

/// The text to show for a file once the attempt to render it has ended: see
/// [`shown_rows`]. Whatever went wrong is shown in place of the content.
pub fn show(outcome: ShowOutcome) -> (text: Text<'static>)
    ensures
        exists|parse_failure: Seq<char>| text_rows(text) == shown_rows(outcome, parse_failure),
        !(outcome matches ShowOutcome::Finished { success, stdout, stderr } && ansi_rows(
            if success {
                stdout@
            } else {
                stderr@
            },
        ) is None) ==> text_rows(text) == shown_rows(outcome, Seq::empty()),
{
    match outcome {
        ShowOutcome::SpawnFailed(message) => {
            let mut shown = "git show: ".to_owned();
            shown.append(message.as_str());
            let text = raw_text(shown);
            assert(text_rows(text) == shown_rows(outcome, Seq::empty()));
            text
        },
        ShowOutcome::FilterFailed(message) => {
            let text = raw_text(message);
            assert(text_rows(text) == shown_rows(outcome, Seq::empty()));
            text
        },
        ShowOutcome::Finished { success, stdout, stderr } => {
            let parsed = if success {
                parse_ansi(&stdout)
            } else {
                parse_ansi(&stderr)
            };
            match parsed {
                Ok(text) => {
                    assert(text_rows(text) == shown_rows(outcome, Seq::empty()));
                    text
                },
                Err(error) => {
                    let reason = ansi_error_text(&error);
                    let text = unreadable_text(reason);
                    assert(text_rows(text) == shown_rows(outcome, reason@));
                    text
                },
            }
        },
    }
}

} // verus!
