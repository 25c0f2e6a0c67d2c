use logbrowse::content::{show, unreadable_text, FileView, ShowOutcome};
use logbrowse::session::{scroll_file, scroll_offset, Size};
use ratatui::style::{Color, Modifier};
use ratatui::text::Text;

fn plain_rows(text: &Text<'static>) -> Vec<String> {
    text.lines
        .iter()
        .map(|line| line.spans.iter().map(|span| span.content.to_string()).collect::<String>())
        .collect()
}

fn rows(count: usize) -> Text<'static> {
    let mut content = String::new();
    for i in 0..count {
        content.push_str(&format!("row {}\n", i));
    }
    Text::raw(content)
}

fn size(height: u16) -> Size {
    Size { width: 80, height }
}

#[test]
fn show_reports_a_command_that_did_not_start() {
    let text = show(ShowOutcome::SpawnFailed("No such file or directory (os error 2)".to_string()));
    assert_eq!(plain_rows(&text), vec!["git show: No such file or directory (os error 2)"]);
}

#[test]
fn show_reports_a_filter_that_did_not_run() {
    let text = show(ShowOutcome::FilterFailed("first\nsecond".to_string()));
    assert_eq!(plain_rows(&text), vec!["first", "second"]);
    let empty = show(ShowOutcome::FilterFailed(String::new()));
    assert_eq!(plain_rows(&empty), vec![""]);
}

#[test]
fn show_reads_the_output_with_its_colours() {
    let text = show(ShowOutcome::Finished {
        success: true,
        stdout: b"\x1b[31mred\x1b[0m and \x1b[1mbold\x1b[0m\nplain\n".to_vec(),
        stderr: b"ignored".to_vec(),
    });
    assert_eq!(plain_rows(&text), vec!["red and bold", "plain"]);
    assert_eq!(text.lines[0].spans[0].content, "red");
    assert_eq!(text.lines[0].spans[0].style.fg, Some(Color::Red));
    let bold = text.lines[0].spans.iter().find(|span| span.content == "bold").unwrap();
    assert!(bold.style.add_modifier.contains(Modifier::BOLD));
}

#[test]
fn show_reads_the_error_stream_of_a_failed_filter() {
    let text = show(ShowOutcome::Finished {
        success: false,
        stdout: b"ignored".to_vec(),
        stderr: b"fatal: bad object\n".to_vec(),
    });
    assert_eq!(plain_rows(&text), vec!["fatal: bad object"]);
}

#[test]
fn unreadable_text_puts_the_reason_under_its_heading() {
    let text = unreadable_text("Parse error: x".to_string());
    assert_eq!(plain_rows(&text), vec!["ansi_to_tui:", "Parse error: x"]);
}

#[test]
fn scroll_file_stays_within_the_rows_that_do_not_fit() {
    let mut view = Some(FileView { contents: rows(100), scroll: 0 });
    scroll_file(&mut view, &size(30), 15);
    assert_eq!(view.as_ref().unwrap().scroll, 15);
    scroll_file(&mut view, &size(30), i16::MAX);
    assert_eq!(view.as_ref().unwrap().scroll, 70);
    scroll_file(&mut view, &size(30), 1);
    assert_eq!(view.as_ref().unwrap().scroll, 70);
    scroll_file(&mut view, &size(30), -1);
    assert_eq!(view.as_ref().unwrap().scroll, 69);
    scroll_file(&mut view, &size(30), i16::MIN);
    assert_eq!(view.as_ref().unwrap().scroll, 0);
    assert_eq!(view.as_ref().unwrap().contents.height(), 100);
}

#[test]
fn scroll_file_of_content_that_fits_stays_at_the_top() {
    let mut view = Some(FileView { contents: rows(5), scroll: 0 });
    scroll_file(&mut view, &size(30), 4);
    assert_eq!(view.as_ref().unwrap().scroll, 0);
    let mut exact = Some(FileView { contents: rows(30), scroll: 0 });
    scroll_file(&mut exact, &size(30), 4);
    assert_eq!(exact.as_ref().unwrap().scroll, 0);
    let mut one_more = Some(FileView { contents: rows(31), scroll: 0 });
    scroll_file(&mut one_more, &size(30), 4);
    assert_eq!(one_more.as_ref().unwrap().scroll, 1);
}

#[test]
fn scroll_file_comes_back_into_range_in_a_larger_viewport() {
    let mut view = Some(FileView { contents: rows(100), scroll: 95 });
    scroll_file(&mut view, &size(60), 1);
    assert_eq!(view.as_ref().unwrap().scroll, 40);
    let mut still = Some(FileView { contents: rows(100), scroll: 95 });
    scroll_file(&mut still, &size(60), 0);
    assert_eq!(still.as_ref().unwrap().scroll, 40);
}

#[test]
fn scroll_file_counts_at_most_as_many_rows_as_an_offset_can_hold() {
    let mut view = Some(FileView { contents: rows(65_540), scroll: 65_000 });
    scroll_file(&mut view, &size(10), i16::MAX);
    assert_eq!(view.as_ref().unwrap().scroll, 65_530);
    scroll_file(&mut view, &size(1), i16::MAX);
    assert_eq!(view.as_ref().unwrap().scroll, 65_535);
    scroll_file(&mut view, &size(0), i16::MAX);
    assert_eq!(view.as_ref().unwrap().scroll, 65_535);
}

#[test]
fn scroll_file_without_content_does_nothing() {
    let mut view: Option<FileView> = None;
    scroll_file(&mut view, &size(30), 5);
    assert!(view.is_none());
}

#[test]
fn scroll_offset_is_clamped_to_the_rows_beyond_the_viewport() {
    assert_eq!(scroll_offset(0, 5, 100, 30), 5);
    assert_eq!(scroll_offset(68, 5, 100, 30), 70);
    assert_eq!(scroll_offset(3, -5, 100, 30), 0);
    assert_eq!(scroll_offset(0, 5, 30, 30), 0);
    assert_eq!(scroll_offset(0, 5, 32, 30), 2);
    assert_eq!(scroll_offset(0, 5, 12, 2), 5);
    assert_eq!(scroll_offset(0, 100, 100, 24), 76);
    assert_eq!(scroll_offset(65_000, i16::MAX, usize::MAX, 0), 65_535);
    assert_eq!(scroll_offset(65_000, i16::MAX, 70_000, 10), 65_535);
    assert_eq!(scroll_offset(65_000, i16::MAX, 65_540, 10), 65_530);
    assert_eq!(scroll_offset(65_535, i16::MIN, usize::MAX, 0), 32_767);
}

#[test]
fn show_keeps_a_carriage_return_that_ends_no_line() {
    let text = show(ShowOutcome::FilterFailed("a\r\nb\r".to_string()));
    assert_eq!(plain_rows(&text), vec!["a", "b\r"]);
}
