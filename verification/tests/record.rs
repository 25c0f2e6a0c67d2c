use logbrowse::record::{
    format_stat_line, next_commit, CommitInfo, Delta, FileChange, RawCommit, RecordId,
};
use logbrowse::styled::{Hue, Line, Span};

fn id(seed: u8) -> RecordId {
    let mut bytes = [0u8; 20];
    for (i, byte) in bytes.iter_mut().enumerate() {
        *byte = seed.wrapping_add(i as u8);
    }
    RecordId::from_bytes(bytes)
}

fn span(text: &str, hue: Hue) -> Span {
    Span { text: text.to_string(), hue, bold: false }
}

#[test]
fn hex_has_two_lower_case_digits_for_each_byte() {
    assert_eq!(id(0).to_hex(), "000102030405060708090a0b0c0d0e0f10111213");
    assert_eq!(RecordId::from_bytes([0xab; 20]).to_hex(), "ab".repeat(20));
    assert_eq!(RecordId::from_bytes([0xff; 20]).to_hex(), "f".repeat(40));
    assert_eq!(RecordId::from_bytes([0x9a; 20]).to_hex(), "9a".repeat(20));
}

#[test]
fn hex_prefix_cuts_after_the_digits_asked_for() {
    let record = id(0xf0);
    assert_eq!(record.hex_prefix(8), "f0f1f2f3");
    assert_eq!(record.hex_prefix(0), "");
    assert_eq!(record.hex_prefix(3), "f0f");
    assert_eq!(record.hex_prefix(40), record.to_hex());
    assert_eq!(record.hex_prefix(1000), record.to_hex());
}

#[test]
fn same_compares_the_whole_hash() {
    let mut bytes = [7u8; 20];
    let first = RecordId::from_bytes(bytes);
    assert!(first.same(&RecordId::from_bytes(bytes)));
    bytes[19] = 8;
    assert!(!first.same(&RecordId::from_bytes(bytes)));
    bytes[19] = 7;
    bytes[0] = 0;
    assert!(!first.same(&RecordId::from_bytes(bytes)));
}

#[test]
fn stat_line_colours_the_sigils() {
    assert_eq!(
        format_stat_line(" src/main.rs | 12 +++++-----"),
        Line {
            spans: vec![
                span(" src/main.rs | 12 ", Hue::Plain),
                span("+++++", Hue::Green),
                span("----", Hue::Red),
            ]
        }
    );
}

#[test]
fn stat_line_with_insertions_only() {
    assert_eq!(
        format_stat_line(" a | 3 +++"),
        Line { spans: vec![span(" a | 3 ", Hue::Plain), span("+++", Hue::Green), span("", Hue::Red)] }
    );
}

#[test]
fn stat_line_with_deletions_only() {
    assert_eq!(
        format_stat_line(" a | 2 --"),
        Line { spans: vec![span(" a | 2 ", Hue::Plain), span("", Hue::Green), span("-", Hue::Red)] }
    );
}

#[test]
fn stat_line_of_a_binary_file() {
    assert_eq!(
        format_stat_line(" img.png | Bin 0 -> 123 bytes"),
        Line {
            spans: vec![
                span(" img.png | Bin 0 -> 123 ", Hue::Plain),
                span("bytes", Hue::Green),
                span("", Hue::Red),
            ]
        }
    );
}

#[test]
fn stat_line_without_a_bar_is_left_plain() {
    let summary = " 2 files changed, 10 insertions(+), 5 deletions(-)";
    assert_eq!(format_stat_line(summary), Line { spans: vec![span(summary, Hue::Plain)] });
    assert_eq!(format_stat_line(""), Line { spans: vec![span("", Hue::Plain)] });
}

#[test]
fn stat_line_without_a_blank_after_the_bar_is_left_plain() {
    assert_eq!(format_stat_line("a | b"), Line { spans: vec![span("a | b", Hue::Plain)] });
}

#[test]
fn stat_line_splits_at_the_first_bar_and_the_last_blank() {
    assert_eq!(
        format_stat_line("a | b | 4 ++--"),
        Line { spans: vec![span("a | b | 4 ", Hue::Plain), span("++", Hue::Green), span("-", Hue::Red)] }
    );
}

#[test]
fn next_commit_fills_in_what_is_absent() {
    let record = next_commit(RawCommit {
        commit_id: id(1),
        author_name: None,
        author_email: None,
        time: None,
        summary: None,
        message: None,
        files: vec![],
        stat_text: None,
    });
    assert_eq!(
        record,
        CommitInfo {
            commit_id: id(1),
            author_name: String::new(),
            author_email: String::new(),
            time: String::new(),
            summary: String::new(),
            message: String::new(),
            files: vec![],
            stats: vec![],
        }
    );
    assert_eq!(record.num_files(), 0);
}

#[test]
fn next_commit_formats_each_line_of_the_statistics() {
    let files = vec![
        FileChange { path: Some(b"a.rs".to_vec()), old_path: Some(b"a.rs".to_vec()), status: Delta::Modified },
        FileChange { path: Some(b"b.rs".to_vec()), old_path: None, status: Delta::Added },
    ];
    let record = next_commit(RawCommit {
        commit_id: id(2),
        author_name: Some("Ada".to_string()),
        author_email: Some("ada@example.org".to_string()),
        time: Some("Mon Jan  1 00:00:00 2024".to_string()),
        summary: Some("Fix".to_string()),
        message: Some("Fix\n\nbody\n".to_string()),
        files: files.clone(),
        stat_text: Some(" a.rs | 2 +-\n b.rs | 1 +\n 2 files changed\n".to_string()),
    });
    assert_eq!(record.author_name, "Ada");
    assert_eq!(record.author_email, "ada@example.org");
    assert_eq!(record.time, "Mon Jan  1 00:00:00 2024");
    assert_eq!(record.summary, "Fix");
    assert_eq!(record.message, "Fix\n\nbody\n");
    assert_eq!(record.files, files);
    assert_eq!(record.num_files(), 2);
    assert_eq!(
        record.stats,
        vec![
            Line { spans: vec![span(" a.rs | 2 ", Hue::Plain), span("+", Hue::Green), span("", Hue::Red)] },
            Line { spans: vec![span(" b.rs | 1 ", Hue::Plain), span("+", Hue::Green), span("", Hue::Red)] },
            Line { spans: vec![span(" 2 files changed", Hue::Plain)] },
        ]
    );
}

#[test]
fn a_change_is_showable_unless_deleted_or_nameless() {
    let shown = FileChange { path: Some(b"a".to_vec()), old_path: None, status: Delta::Modified };
    let deleted = FileChange { path: Some(b"a".to_vec()), old_path: None, status: Delta::Deleted };
    let nameless = FileChange { path: None, old_path: None, status: Delta::Added };
    assert!(shown.is_showable());
    assert!(!deleted.is_showable());
    assert!(!nameless.is_showable());
}
