use logbrowse::content::{show, ShowOutcome};
use logbrowse::cursor::ScrollCursor;
use logbrowse::decor::decorations;
use logbrowse::record::{CommitInfo, Delta, FileChange, RecordId};
use logbrowse::session::{
    content_size, error_lines, handle_input, settle_cursor, make_commit_help_text, make_log_help_text, Action, App, Fetched,
    Key, LogMode, Size,
};

fn record(seed: u8, files: &[(&str, Delta)]) -> CommitInfo {
    CommitInfo {
        commit_id: RecordId::from_bytes([seed; 20]),
        author_name: "Ada".to_string(),
        author_email: "ada@example.org".to_string(),
        time: "Mon Jan  1 00:00:00 2024".to_string(),
        summary: format!("change {}", seed),
        message: format!("change {}\n\nbody\n", seed),
        files: files
            .iter()
            .map(|(path, status)| FileChange {
                path: Some(path.as_bytes().to_vec()),
                old_path: None,
                status: *status,
            })
            .collect(),
        stats: vec![],
    }
}

fn session(show_only: bool, records: Vec<CommitInfo>) -> App {
    let mut app = App::new(decorations(&vec![], &vec![]), "HEAD".to_string(), show_only);
    for held in records {
        assert!(app.record_fetched(Fetched::Record(held)));
    }
    app
}

fn size() -> Size {
    Size { width: 80, height: 24 }
}

fn press(app: &mut App, key: Key) -> Action {
    assert!(app.well_formed());
    let action = handle_input(&key, app, &size());
    assert!(app.well_formed());
    action
}

fn load(app: &mut App, action: Action, text: &str) {
    match action {
        Action::LoadFile { record, file } => {
            app.file_loaded(record, file, show(ShowOutcome::FilterFailed(text.to_string())))
        }
        other => panic!("no file to load: {:?}", other),
    }
}

fn selected_file(app: &App) -> Option<usize> {
    app.commit_view().unwrap().files_state.selected
}

#[test]
fn a_new_session_shows_an_empty_list() {
    let app = session(false, vec![]);
    assert!(app.commit_infos().is_empty());
    assert!(app.commit_view().is_none());
    assert!(app.popup().is_none());
    assert_eq!(app.log_mode(), LogMode::Short);
    assert_eq!(app.log_state(), ScrollCursor { selected: None, offset: 0 });
    assert!(!app.show_only());
    assert!(!app.exhausted());
    assert_eq!(app.revision_range(), "HEAD");
    assert!(app.well_formed());
}

#[test]
fn list_keys_move_the_cursor() {
    let mut app = session(false, vec![record(0, &[]), record(1, &[])]);
    assert_eq!(press(&mut app, Key::Char('j')), Action::Continue);
    assert_eq!(app.log_state().selected, Some(0));
    press(&mut app, Key::Down);
    assert_eq!(app.log_state().selected, Some(1));
    press(&mut app, Key::Char('d'));
    assert_eq!(app.log_state().selected, Some(7));
    press(&mut app, Key::PageDown);
    assert_eq!(app.log_state().selected, Some(13));
    press(&mut app, Key::Char('k'));
    assert_eq!(app.log_state().selected, Some(12));
    press(&mut app, Key::Up);
    assert_eq!(app.log_state().selected, Some(11));
    press(&mut app, Key::Char('u'));
    assert_eq!(app.log_state().selected, Some(5));
    press(&mut app, Key::PageUp);
    assert_eq!(app.log_state().selected, Some(0));
    press(&mut app, Key::PageUp);
    assert_eq!(app.log_state().selected, Some(0));
    press(&mut app, Key::Down);
    press(&mut app, Key::Down);
    press(&mut app, Key::Char('g'));
    assert_eq!(app.log_state().selected, Some(0));
    press(&mut app, Key::Down);
    press(&mut app, Key::Home);
    assert_eq!(app.log_state().selected, Some(0));
}

#[test]
fn density_keys_keep_the_cursor() {
    let mut app = session(false, vec![record(0, &[]), record(1, &[]), record(2, &[])]);
    press(&mut app, Key::Down);
    press(&mut app, Key::Down);
    press(&mut app, Key::Down);
    app.set_list_offset(1);
    let cursor = app.log_state();
    assert_eq!(cursor, ScrollCursor { selected: Some(2), offset: 1 });
    for (key, mode) in [('2', LogMode::Medium), ('3', LogMode::Long), ('1', LogMode::Short), ('1', LogMode::Short)] {
        assert_eq!(press(&mut app, Key::Char(key)), Action::Continue);
        assert_eq!(app.log_mode(), mode);
        assert_eq!(app.log_state(), cursor);
    }
}

#[test]
fn opening_a_record_without_files_shows_no_content() {
    let mut app = session(false, vec![record(0, &[])]);
    press(&mut app, Key::Down);
    assert_eq!(press(&mut app, Key::Enter), Action::Continue);
    let view = app.commit_view().unwrap();
    assert_eq!(view.index, 0);
    assert_eq!(view.message_scroll, 0);
    assert_eq!(view.files_state, ScrollCursor { selected: None, offset: 0 });
    assert!(view.file_view.is_none());
    assert_eq!(press(&mut app, Key::Char('n')), Action::Continue);
    assert_eq!(press(&mut app, Key::Char('p')), Action::Continue);
    assert_eq!(selected_file(&app), None);
    assert!(app.commit_view().unwrap().file_view.is_none());
}

#[test]
fn opening_a_record_asks_for_its_first_file() {
    let mut app = session(false, vec![record(0, &[]), record(1, &[("a", Delta::Modified)])]);
    press(&mut app, Key::Down);
    press(&mut app, Key::Down);
    let action = press(&mut app, Key::Enter);
    assert_eq!(action, Action::LoadFile { record: 1, file: 0 });
    assert_eq!(selected_file(&app), Some(0));
    assert!(app.commit_view().unwrap().file_view.is_none());
    load(&mut app, action, "content");
    let shown = app.commit_view().unwrap().file_view.as_ref().unwrap();
    assert_eq!(shown.scroll, 0);
    assert_eq!(shown.contents.height(), 1);
}

#[test]
fn enter_without_a_selection_or_beyond_the_records_does_nothing() {
    let mut app = session(false, vec![record(0, &[])]);
    assert_eq!(press(&mut app, Key::Enter), Action::Continue);
    assert!(app.commit_view().is_none());
    press(&mut app, Key::Down);
    press(&mut app, Key::Down);
    assert_eq!(app.log_state().selected, Some(1));
    assert_eq!(press(&mut app, Key::Enter), Action::Continue);
    assert!(app.commit_view().is_none());
}

#[test]
fn next_file_stops_at_the_last_file() {
    let files = [("a", Delta::Modified), ("b", Delta::Added), ("c", Delta::Modified)];
    let mut app = session(false, vec![record(0, &files)]);
    press(&mut app, Key::Down);
    let first = press(&mut app, Key::Enter);
    load(&mut app, first, "a");
    assert_eq!(press(&mut app, Key::Char('n')), Action::LoadFile { record: 0, file: 1 });
    assert_eq!(selected_file(&app), Some(1));
    assert_eq!(press(&mut app, Key::Char('n')), Action::LoadFile { record: 0, file: 2 });
    assert_eq!(selected_file(&app), Some(2));
    assert_eq!(press(&mut app, Key::Char('n')), Action::Continue);
    assert_eq!(selected_file(&app), Some(2));
    for _ in 0..10 {
        press(&mut app, Key::Char('n'));
    }
    assert_eq!(selected_file(&app), Some(2));
}

#[test]
fn previous_file_stops_at_the_first_file() {
    let files = [("a", Delta::Modified), ("b", Delta::Added)];
    let mut app = session(false, vec![record(0, &files)]);
    press(&mut app, Key::Down);
    press(&mut app, Key::Enter);
    assert_eq!(press(&mut app, Key::Char('p')), Action::Continue);
    assert_eq!(selected_file(&app), Some(0));
    press(&mut app, Key::Char('n'));
    assert_eq!(press(&mut app, Key::Char('p')), Action::LoadFile { record: 0, file: 0 });
    assert_eq!(selected_file(&app), Some(0));
}

#[test]
fn moving_to_another_file_drops_the_content_shown() {
    let files = [("a", Delta::Modified), ("b", Delta::Deleted)];
    let mut app = session(false, vec![record(0, &files)]);
    press(&mut app, Key::Down);
    let first = press(&mut app, Key::Enter);
    load(&mut app, first, "a");
    assert!(app.commit_view().unwrap().file_view.is_some());
    assert_eq!(press(&mut app, Key::Char('n')), Action::Continue);
    assert_eq!(selected_file(&app), Some(1));
    assert!(app.commit_view().unwrap().file_view.is_none());
}

#[test]
fn a_key_that_does_not_move_the_file_cursor_keeps_the_content() {
    let mut app = session(false, vec![record(0, &[("a", Delta::Modified)])]);
    press(&mut app, Key::Down);
    let first = press(&mut app, Key::Enter);
    load(&mut app, first, "a\nb");
    assert_eq!(press(&mut app, Key::Char('n')), Action::Continue);
    assert_eq!(press(&mut app, Key::Char('p')), Action::Continue);
    assert_eq!(app.commit_view().unwrap().file_view.as_ref().unwrap().contents.height(), 2);
}

#[test]
fn content_that_comes_late_is_dropped() {
    let files = [("a", Delta::Modified), ("b", Delta::Modified)];
    let mut app = session(false, vec![record(0, &files), record(1, &files)]);
    press(&mut app, Key::Down);
    let first = press(&mut app, Key::Enter);
    let second = press(&mut app, Key::Char('n'));
    load(&mut app, first, "stale");
    assert!(app.commit_view().unwrap().file_view.is_none());
    load(&mut app, second, "fresh");
    assert!(app.commit_view().unwrap().file_view.is_some());
    press(&mut app, Key::Esc);
    load(&mut app, second, "late");
    assert!(app.commit_view().is_none());
    app.file_loaded(1, 1, show(ShowOutcome::FilterFailed("other".to_string())));
    assert!(app.commit_view().is_none());
}

#[test]
fn message_keys_scroll_the_message() {
    let mut app = session(false, vec![record(0, &[])]);
    press(&mut app, Key::Down);
    press(&mut app, Key::Enter);
    press(&mut app, Key::Up);
    assert_eq!(app.commit_view().unwrap().message_scroll, 0);
    press(&mut app, Key::Down);
    press(&mut app, Key::Down);
    assert_eq!(app.commit_view().unwrap().message_scroll, 2);
    press(&mut app, Key::Up);
    assert_eq!(app.commit_view().unwrap().message_scroll, 1);
}

#[test]
fn content_keys_scroll_the_content() {
    let mut app = session(false, vec![record(0, &[("a", Delta::Modified)])]);
    press(&mut app, Key::Down);
    let first = press(&mut app, Key::Enter);
    let text: String = (0..100).map(|i| format!("row {}\n", i)).collect();
    load(&mut app, first, &text);
    let scroll = |app: &App| app.commit_view().unwrap().file_view.as_ref().unwrap().scroll;
    assert_eq!(content_size(&size()), Size { width: 40, height: 23 });
    press(&mut app, Key::Char('j'));
    assert_eq!(scroll(&app), 1);
    press(&mut app, Key::Char('d'));
    assert_eq!(scroll(&app), 13);
    press(&mut app, Key::PageDown);
    assert_eq!(scroll(&app), 25);
    press(&mut app, Key::Char('k'));
    assert_eq!(scroll(&app), 24);
    press(&mut app, Key::Char('u'));
    assert_eq!(scroll(&app), 12);
    press(&mut app, Key::PageUp);
    assert_eq!(scroll(&app), 0);
    press(&mut app, Key::PageUp);
    assert_eq!(scroll(&app), 0);
    for _ in 0..10 {
        press(&mut app, Key::PageDown);
    }
    assert_eq!(scroll(&app), 77);
    assert_eq!(app.commit_view().unwrap().message_scroll, 0);
}

#[test]
fn leaving_the_detail_view_returns_to_the_list() {
    let mut app = session(false, vec![record(0, &[]), record(1, &[])]);
    press(&mut app, Key::Down);
    press(&mut app, Key::Down);
    press(&mut app, Key::Enter);
    assert_eq!(press(&mut app, Key::Char('q')), Action::Continue);
    assert!(app.commit_view().is_none());
    assert_eq!(app.log_state().selected, Some(1));
    press(&mut app, Key::Enter);
    assert_eq!(press(&mut app, Key::Esc), Action::Continue);
    assert!(app.commit_view().is_none());
    assert_eq!(press(&mut app, Key::Esc), Action::Quit);
    assert_eq!(press(&mut app, Key::Char('q')), Action::Quit);
}

#[test]
fn a_session_on_a_single_record_opens_it_and_ends_on_quit() {
    let mut app = session(true, vec![]);
    assert_eq!(app.needed(&size()), 1);
    assert!(app.wants_record(1));
    assert_eq!(app.open_single(), Action::Continue);
    assert!(app.commit_view().is_none());
    app.record_fetched(Fetched::Record(record(0, &[("a", Delta::Modified)])));
    assert!(!app.wants_record(1));
    assert!(app.wants_record(2));
    assert_eq!(app.open_single(), Action::LoadFile { record: 0, file: 0 });
    assert_eq!(app.commit_view().unwrap().index, 0);
    assert_eq!(app.open_single(), Action::Continue);
    assert_eq!(press(&mut app, Key::Char('q')), Action::Quit);
    assert!(app.commit_view().is_some());
    assert_eq!(press(&mut app, Key::Esc), Action::Quit);
}

#[test]
fn open_single_does_nothing_in_a_browsing_session() {
    let mut app = session(false, vec![record(0, &[])]);
    assert_eq!(app.open_single(), Action::Continue);
    assert!(app.commit_view().is_none());
}

#[test]
fn help_is_an_overlay_that_takes_one_key() {
    let mut app = session(false, vec![record(0, &[])]);
    assert_eq!(press(&mut app, Key::Char('h')), Action::Continue);
    assert_eq!(app.popup(), Some(&make_log_help_text()));
    assert_eq!(press(&mut app, Key::Char('q')), Action::Continue);
    assert!(app.popup().is_none());
    assert_eq!(app.log_state().selected, None);
    press(&mut app, Key::Down);
    press(&mut app, Key::Enter);
    press(&mut app, Key::Char('h'));
    assert_eq!(app.popup(), Some(&make_commit_help_text()));
    assert_eq!(press(&mut app, Key::Esc), Action::Continue);
    assert!(app.popup().is_none());
    assert!(app.commit_view().is_some());
    press(&mut app, Key::Char('h'));
    assert_eq!(press(&mut app, Key::Other), Action::Continue);
    assert!(app.popup().is_none());
}

#[test]
fn help_texts_list_the_keys() {
    let log = make_log_help_text();
    assert_eq!(log.len(), 15);
    assert_eq!(log[0], "h           this help");
    assert_eq!(log[2], "");
    assert_eq!(log[7], "j  ↓        next commit");
    assert_eq!(log[14], "x           exec git log");
    let commit = make_commit_help_text();
    assert_eq!(commit.len(), 13);
    assert_eq!(commit[3], "n           next file");
    assert_eq!(commit[12], "↑           scroll commit message up");
}

#[test]
fn unknown_keys_change_nothing() {
    let mut app = session(false, vec![record(0, &[])]);
    press(&mut app, Key::Down);
    for key in [Key::Other, Key::Char('z'), Key::Char('n'), Key::Char('J')] {
        assert_eq!(press(&mut app, key), Action::Continue);
        assert_eq!(app.log_state().selected, Some(0));
        assert!(app.commit_view().is_none());
        assert!(app.popup().is_none());
    }
    press(&mut app, Key::Enter);
    for key in [Key::Other, Key::Char('z'), Key::Enter, Key::Home, Key::Char('1'), Key::Char('x')] {
        assert_eq!(press(&mut app, key), Action::Continue);
        assert_eq!(app.commit_view().unwrap().message_scroll, 0);
        assert_eq!(app.log_mode(), LogMode::Short);
    }
}

#[test]
fn the_history_command_gets_the_arguments_of_the_density() {
    let mut app = App::new(decorations(&vec![], &vec![]), "v1..v2".to_string(), false);
    assert_eq!(press(&mut app, Key::Char('x')), Action::ExecLog);
    assert_eq!(
        app.exec_log_args(),
        vec![
            "log",
            "v1..v2",
            "--pretty=format:%C(yellow)%h%Creset %Cgreen(%cd) %C(bold blue)%aN%Creset %C(red)%d%Creset%n\t%s"
        ]
    );
    press(&mut app, Key::Char('2'));
    assert_eq!(app.exec_log_args(), vec!["log", "v1..v2"]);
    press(&mut app, Key::Char('3'));
    assert_eq!(app.exec_log_args(), vec!["log", "v1..v2", "--stat"]);
}

#[test]
fn a_frame_needs_half_the_rows_and_what_the_cursor_has_passed() {
    let mut app = session(false, vec![]);
    assert_eq!(app.needed(&size()), 12);
    assert_eq!(app.needed(&Size { width: 80, height: 7 }), 3);
    assert_eq!(app.needed(&Size { width: 80, height: 0 }), 0);
    press(&mut app, Key::Down);
    assert_eq!(app.needed(&size()), 12);
    press(&mut app, Key::Down);
    press(&mut app, Key::PageDown);
    assert_eq!(app.log_state().selected, Some(7));
    assert_eq!(app.needed(&size()), 19);
}

#[test]
fn error_lines_are_the_lines_of_the_message() {
    assert_eq!(error_lines("object not found"), vec!["object not found"]);
    assert_eq!(error_lines("a\nb\n"), vec!["a", "b"]);
    assert_eq!(error_lines(""), vec![""]);
}

#[test]
fn the_offset_goes_to_the_list_on_screen() {
    let mut app = session(false, vec![record(0, &[("a", Delta::Deleted)])]);
    press(&mut app, Key::Down);
    app.set_list_offset(3);
    assert_eq!(app.log_state(), ScrollCursor { selected: Some(0), offset: 3 });
    press(&mut app, Key::Enter);
    app.set_list_offset(1);
    assert_eq!(app.commit_view().unwrap().files_state, ScrollCursor { selected: Some(0), offset: 1 });
    assert_eq!(app.log_state(), ScrollCursor { selected: Some(0), offset: 3 });
}

#[test]
fn content_is_scrolled_within_its_pane_whatever_the_division() {
    let tall = Size { width: 80, height: 41 };
    assert_eq!(content_size(&tall), Size { width: 80, height: 20 });
    let mut app = session(false, vec![record(0, &[("a", Delta::Modified)])]);
    handle_input(&Key::Down, &mut app, &tall);
    let first = handle_input(&Key::Enter, &mut app, &tall);
    let text: String = (0..50).map(|i| format!("row {}\n", i)).collect();
    load(&mut app, first, &text);
    for _ in 0..5 {
        handle_input(&Key::PageDown, &mut app, &tall);
    }
    assert_eq!(app.commit_view().unwrap().file_view.as_ref().unwrap().scroll, 30);
    assert_eq!(content_size(&Size { width: 0, height: 0 }), Size { width: 0, height: 0 });
}

#[test]
fn settle_cursor_brings_a_cursor_onto_the_rows() {
    let beyond = ScrollCursor { selected: Some(9), offset: 4 };
    assert_eq!(settle_cursor(beyond, 3), ScrollCursor { selected: Some(2), offset: 4 });
    assert_eq!(settle_cursor(beyond, 10), beyond);
    assert_eq!(settle_cursor(beyond, 9), ScrollCursor { selected: Some(8), offset: 4 });
    assert_eq!(settle_cursor(beyond, 0), ScrollCursor { selected: None, offset: 0 });
    let none = ScrollCursor { selected: None, offset: 4 };
    assert_eq!(settle_cursor(none, 3), none);
}
