//! The session: the records fetched so far, the view that is open and the
//! overlay above it, and how each key press changes them.

use vstd::prelude::*;
use ratatui::text::Text;
use crate::content::{message_lines, text_height, text_rows, FileView};
use crate::cursor::{cap_rows, capped, clamped, scroll, ScrollCursor};
use crate::layout::{detail_areas, detail_panes, main_area, view_area, Rect};
use crate::decor::Decorations;
use crate::record::CommitInfo;
use crate::text::split_lines;
use crate::wrap::{message_limit, message_scroll_limit, rows_beyond};

verus! {

/// How much of each record the list shows.
#[derive(Clone, Copy, Debug, PartialEq, Eq, Structural)]
pub enum LogMode {
    Short,
    Medium,
    Long,
}

/// A key press, reduced to what the browser tells apart.
#[derive(Clone, Copy, Debug, PartialEq, Eq, Structural)]
pub enum Key {
    Char(char),
    Down,
    Up,
    PageDown,
    PageUp,
    Home,
    Enter,
    Esc,
    Other,
}

/// The size of the terminal, in cells.
#[derive(Clone, Copy, Debug, PartialEq, Eq, Structural)]
pub struct Size {
    pub width: u16,
    pub height: u16,
}

/// What the caller has to do after a step of the session.
#[derive(Clone, Copy, Debug, PartialEq, Eq, Structural)]
pub enum Action {
    /// Draw the next frame and wait for a key.
    Continue,
    /// End the session.
    Quit,
    /// Render file change `file` of record `record` and hand the content to
    /// [`App::file_loaded`].
    LoadFile { record: usize, file: usize },
    /// Leave the browser and run the history command with the arguments of
    /// [`App::exec_log_args`].
    ExecLog,
}

/// What the history provider answered when asked for the next record.
#[derive(Debug)]
pub enum Fetched {
    Record(CommitInfo),
    Exhausted,
    Failed(String),
}

/// The detail view of one record.
pub struct CommitView {
    pub index: usize,
    pub message_scroll: u16,
    pub files_state: ScrollCursor,
    pub file_view: Option<FileView>,
}

/// The state of a browsing session.
pub struct App {
    revision_range: String,
    show_only: bool,
    commit_infos: Vec<CommitInfo>,
    exhausted: bool,
    decorations: Decorations,
    log_mode: LogMode,
    log_state: ScrollCursor,
    commit_view: Option<CommitView>,
    popup: Option<Vec<String>>,
}

/// What an [`App`] stands for.
pub struct Session {
    pub revision_range: Seq<char>,
    pub show_only: bool,
    pub records: Seq<CommitInfo>,
    pub exhausted: bool,
    pub decorations: Decorations,
    pub log_mode: LogMode,
    pub log_state: ScrollCursor,
    pub commit_view: Option<CommitView>,
    pub popup: Option<Seq<Seq<char>>>,
}

impl View for App {
    type V = Session;

    closed spec fn view(&self) -> Session {
        Session {
            revision_range: self.revision_range@,
            show_only: self.show_only,
            records: self.commit_infos@,
            exhausted: self.exhausted,
            decorations: self.decorations,
            log_mode: self.log_mode,
            log_state: self.log_state,
            commit_view: self.commit_view,
            popup: match self.popup {
                Some(lines) => Some(lines.deep_view()),
                None => None,
            },
        }
    }
}

/// The help shown above the list of records.
pub open spec fn log_help_text() -> Seq<Seq<char>> {
    seq![
        "h           this help"@,
        "q  esc      close window"@,
        ""@,
        "1           short log"@,
        "2           regular log"@,
        "3           log with stat"@,
        ""@,
        "j  ↓        next commit"@,
        "k  ↑        previous commit"@,
        "d  pgdown   down half a window"@,
        "u  pgup     up half a window"@,
        "g  home     first commit"@,
        ""@,
        "enter       show commit"@,
        "x           exec git log"@,
    ]
}

/// The help shown above the detail view of a record.
pub open spec fn commit_help_text() -> Seq<Seq<char>> {
    seq![
        "h           this help"@,
        "q  esc      close window"@,
        ""@,
        "n           next file"@,
        "p           previous file"@,
        ""@,
        "j           down one line"@,
        "k           up one line"@,
        "d  pgdown   down half a window"@,
        "u  pgup     up half a window"@,
        ""@,
        "↓           scroll commit message down"@,
        "↑           scroll commit message up"@,
    ]
}

/// The greatest scroll offset of content of `rows` rows in a viewport of
/// `viewport` rows: the rows that do not fit into it, or the greatest number
/// that an offset can hold where they are more.
pub open spec fn scroll_limit(rows: nat, viewport: u16) -> int {
    capped(rows_beyond(rows as int, viewport) as nat)
}

/// The scroll offset that a move by `amount` rows reaches from `scroll` in
/// content of `rows` rows, in a viewport of `viewport` rows: it stays within
/// [`scroll_limit`].
pub open spec fn scrolled_to(scroll: u16, amount: int, rows: nat, viewport: u16) -> int {
    clamped(scroll + amount, 0, scroll_limit(rows, viewport))
}

/// The file view after scrolling by `amount` rows in a viewport of
/// `viewport` rows.
pub open spec fn file_scrolled(view: FileView, viewport: u16, amount: int) -> FileView {
    FileView {
        contents: view.contents,
        scroll: scrolled_to(view.scroll, amount, text_rows(view.contents).len(), viewport) as u16,
    }
}

/// The frame of a terminal of `size`.
pub open spec fn terminal_frame(size: Size) -> Rect {
    Rect { x: 0, y: 0, width: size.width, height: size.height }
}

/// The size of the pane that shows the content of a file in a terminal of
/// `size`: the viewport of the content.
pub open spec fn content_viewport(size: Size) -> Size {
    let pane = detail_panes(main_area(terminal_frame(size))).content;
    Size { width: pane.width, height: pane.height }
}

/// A cursor brought onto a list of `count` rows: on the last row where it
/// was beyond, on none where there is no row.
pub open spec fn settled_cursor(cursor: ScrollCursor, count: nat) -> ScrollCursor {
    if count == 0 {
        ScrollCursor { selected: None, offset: 0 }
    } else {
        match cursor.selected {
            Some(index) => if index >= count {
                ScrollCursor { selected: Some((count - 1) as usize), offset: cursor.offset }
            } else {
                cursor
            },
            None => cursor,
        }
    }
}

impl Session {
    /// Whether the session is well formed: the detail view, if open, is on a
    /// record that is held; its file cursor is on one of that record's files,
    /// or on none where the record has none; and content is shown for a
    /// selected file only.
    pub open spec fn wf(self) -> bool {
        match self.commit_view {
            None => true,
            Some(view) => {
                &&& view.index < self.records.len()
                &&& match view.files_state.selected {
                    Some(file) => file < self.records[view.index as int].files@.len(),
                    None => self.records[view.index as int].files@.len() == 0,
                }
                &&& view.file_view is Some ==> view.files_state.selected is Some
            },
        }
    }

    /// What is asked of the caller once file `file` of record `record` is
    /// selected: to render it where it can be shown.
    pub open spec fn load_action(self, record: usize, file: usize) -> Action {
        if self.records[record as int].files@[file as int].showable() {
            Action::LoadFile { record, file }
        } else {
            Action::Continue
        }
    }

    /// The session with the detail view replaced by `view`.
    pub open spec fn with_view(self, view: Option<CommitView>) -> Session {
        Session { commit_view: view, ..self }
    }

    /// The session with the overlay replaced by `popup`.
    pub open spec fn with_popup(self, popup: Option<Seq<Seq<char>>>) -> Session {
        Session { popup, ..self }
    }

    /// The detail view as it is right after record `index` is opened: its
    /// first file selected if it has one, no content shown yet.
    pub open spec fn fresh_view(self, index: usize) -> CommitView {
        CommitView {
            index,
            message_scroll: 0,
            files_state: if self.records[index as int].files@.len() > 0 {
                ScrollCursor { selected: Some(0), offset: 0 }
            } else {
                ScrollCursor { selected: None, offset: 0 }
            },
            file_view: None,
        }
    }

    /// Opening record `index`: the session and what is asked of the caller.
    pub open spec fn opened(self, index: usize) -> (Session, Action) {
        (
            self.with_view(Some(self.fresh_view(index))),
            if self.records[index as int].files@.len() > 0 {
                self.load_action(index, 0)
            } else {
                Action::Continue
            },
        )
    }

    /// Moving the file cursor of the detail view by `amount`. The cursor stays
    /// on the record's files. Where it moves, the content shown is dropped
    /// and that of the newly selected file is asked for.
    pub open spec fn file_moved(self, amount: int) -> (Session, Action) {
        let view = self.commit_view.unwrap();
        let count = self.records[view.index as int].files@.len();
        if count == 0 {
            (self, Action::Continue)
        } else {
            let cursor = view.files_state.scrolled(amount, Some((count - 1) as usize));
            if cursor.selected == view.files_state.selected {
                (self, Action::Continue)
            } else {
                (
                    self.with_view(
                        Some(CommitView { files_state: cursor, file_view: None, ..view }),
                    ),
                    self.load_action(view.index, cursor.selected.unwrap()),
                )
            }
        }
    }

    /// Scrolling the content shown by `amount` rows in a viewport of
    /// `height` rows; nothing where none is shown.
    pub open spec fn content_scrolled(self, height: u16, amount: int) -> Session {
        let view = self.commit_view.unwrap();
        match view.file_view {
            Some(shown) => self.with_view(
                Some(CommitView { file_view: Some(file_scrolled(shown, height, amount)), ..view }),
            ),
            None => self,
        }
    }

    /// Scrolling the message of the detail view by `amount` rows.
    pub open spec fn message_scrolled(self, amount: int) -> Session {
        let view = self.commit_view.unwrap();
        self.with_view(
            Some(
                CommitView {
                    message_scroll: clamped(view.message_scroll + amount, 0, u16::MAX as int) as u16,
                    ..view
                },
            ),
        )
    }

    /// A key press while the detail view is open. The content is scrolled
    /// within the rows that do not fit into its pane.
    pub open spec fn detail_key(self, key: Key, size: Size) -> (Session, Action) {
        if key == Key::Char('n') {
            self.file_moved(1)
        } else if key == Key::Char('p') {
            self.file_moved(-1)
        } else if key == Key::Down {
            (self.message_scrolled(1), Action::Continue)
        } else if key == Key::Up {
            (self.message_scrolled(-1), Action::Continue)
        } else if key == Key::Char('j') {
            (self.content_scrolled(content_viewport(size).height, 1), Action::Continue)
        } else if key == Key::Char('k') {
            (self.content_scrolled(content_viewport(size).height, -1), Action::Continue)
        } else if key == Key::Char('d') || key == Key::PageDown {
            (
                self.content_scrolled(content_viewport(size).height, size.height as int / 2),
                Action::Continue,
            )
        } else if key == Key::Char('u') || key == Key::PageUp {
            (
                self.content_scrolled(content_viewport(size).height, -(size.height as int / 2)),
                Action::Continue,
            )
        } else if key == Key::Char('h') {
            (self.with_popup(Some(commit_help_text())), Action::Continue)
        } else if key == Key::Char('q') || key == Key::Esc {
            if self.show_only {
                (self, Action::Quit)
            } else {
                (self.with_view(None), Action::Continue)
            }
        } else {
            (self, Action::Continue)
        }
    }

    /// The session with the list cursor replaced by `cursor`.
    pub open spec fn with_cursor(self, cursor: ScrollCursor) -> Session {
        Session { log_state: cursor, ..self }
    }

    /// The session with the density of the list replaced by `mode`.
    pub open spec fn with_mode(self, mode: LogMode) -> Session {
        Session { log_mode: mode, ..self }
    }

    /// A key press while the list of records is open.
    pub open spec fn log_key(self, key: Key, size: Size) -> (Session, Action) {
        if key == Key::Char('j') || key == Key::Down {
            (self.with_cursor(self.log_state.scrolled(1, None)), Action::Continue)
        } else if key == Key::Char('k') || key == Key::Up {
            (self.with_cursor(self.log_state.scrolled(-1, None)), Action::Continue)
        } else if key == Key::Char('d') || key == Key::PageDown {
            (
                self.with_cursor(self.log_state.scrolled(size.height as int / 4, None)),
                Action::Continue,
            )
        } else if key == Key::Char('u') || key == Key::PageUp {
            (
                self.with_cursor(self.log_state.scrolled(-(size.height as int / 4), None)),
                Action::Continue,
            )
        } else if key == Key::Char('g') || key == Key::Home {
            (
                self.with_cursor(ScrollCursor { selected: Some(0), offset: self.log_state.offset }),
                Action::Continue,
            )
        } else if key == Key::Char('1') {
            (self.with_mode(LogMode::Short), Action::Continue)
        } else if key == Key::Char('2') {
            (self.with_mode(LogMode::Medium), Action::Continue)
        } else if key == Key::Char('3') {
            (self.with_mode(LogMode::Long), Action::Continue)
        } else if key == Key::Enter {
            match self.log_state.selected {
                Some(index) => if index < self.records.len() {
                    self.opened(index)
                } else {
                    (self, Action::Continue)
                },
                None => (self, Action::Continue),
            }
        } else if key == Key::Char('h') {
            (self.with_popup(Some(log_help_text())), Action::Continue)
        } else if key == Key::Char('x') {
            (self, Action::ExecLog)
        } else if key == Key::Char('q') || key == Key::Esc {
            (self, Action::Quit)
        } else {
            (self, Action::Continue)
        }
    }

    /// The number of records that a frame needs: one in a session that shows
    /// a single record, otherwise half the terminal's rows and as many more
    /// as the list cursor has moved down; never more than an index can hold.
    pub open spec fn needed(self, size: Size) -> usize {
        if self.show_only {
            1
        } else {
            clamped(
                size.height as int / 2 + match self.log_state.selected {
                    Some(index) => index as int,
                    None => 0,
                },
                0,
                usize::MAX as int,
            ) as usize
        }
    }

    /// Whether the provider is to be asked for one more record on the way
    /// to `target_len` records: it has not said that it is exhausted, and
    /// fewer are held.
    pub open spec fn wants_record(self, target_len: usize) -> bool {
        !self.exhausted && self.records.len() < target_len
    }

    /// The session after the provider's answer: a record is appended, the
    /// end of the history is remembered, and a failure becomes the overlay
    /// while the records stay as they are.
    pub open spec fn fetched(self, answer: Fetched) -> Session {
        match answer {
            Fetched::Record(record) => Session { records: self.records.push(record), ..self },
            Fetched::Exhausted => Session { exhausted: true, ..self },
            Fetched::Failed(message) => self.with_popup(Some(message_lines(message@))),
        }
    }

    /// In a session that shows a single record, opening that record once it
    /// is fetched.
    pub open spec fn single_opened(self) -> (Session, Action) {
        if self.show_only && self.commit_view is None && self.records.len() > 0 {
            self.opened(0)
        } else {
            (self, Action::Continue)
        }
    }

    /// The session once `contents` is rendered for file `file` of record
    /// `record`: it is shown from its first row if that file is still the
    /// one selected, and dropped otherwise.
    pub open spec fn file_shown(
        self,
        record: usize,
        file: usize,
        contents: Text<'static>,
    ) -> Session {
        match self.commit_view {
            Some(view) => if view.index == record && view.files_state.selected == Some(file) {
                self.with_view(
                    Some(CommitView { file_view: Some(FileView { contents, scroll: 0 }), ..view }),
                )
            } else {
                self
            },
            None => self,
        }
    }

    /// The arguments with which the history command shows what the list
    /// shows.
    pub open spec fn log_args(self) -> Seq<Seq<char>> {
        seq!["log"@, self.revision_range] + match self.log_mode {
            LogMode::Short => seq![
                "--pretty=format:%C(yellow)%h%Creset %Cgreen(%cd) %C(bold blue)%aN%Creset %C(red)%d%Creset%n\t%s"@,
            ],
            LogMode::Medium => Seq::empty(),
            LogMode::Long => seq!["--stat"@],
        }
    }

    /// The session after `times` presses of `key`.
    pub open spec fn pressed(self, key: Key, size: Size, times: nat) -> Session
        decreases times,
    {
        if times == 0 {
            self
        } else {
            self.handled(key, size).0.pressed(key, size, (times - 1) as nat)
        }
    }

    /// The session after a fill to `target_len` records in which the
    /// provider gives `answers`, in this order: each is asked for while a
    /// record is wanted and taken as [`Session::fetched`] says, and nothing is
    /// asked after an answer that is no record.
    pub open spec fn answered(self, answers: Seq<Fetched>, target_len: usize) -> Session
        decreases answers.len(),
    {
        if answers.len() == 0 || !self.wants_record(target_len) {
            self
        } else if answers[0] is Record {
            self.fetched(answers[0]).answered(answers.drop_first(), target_len)
        } else {
            self.fetched(answers[0])
        }
    }

    /// The session with the cursor of the list on a record that is held: the
    /// last one where it was beyond, and none where none is held.
    pub open spec fn settled(self) -> Session {
        self.with_cursor(settled_cursor(self.log_state, self.records.len()))
    }

    /// The session with the message of the detail view scrolled past `limit`
    /// rows at most.
    pub open spec fn message_clamped(self, limit: u16) -> Session {
        match self.commit_view {
            Some(view) => if view.message_scroll > limit {
                self.with_view(Some(CommitView { message_scroll: limit, ..view }))
            } else {
                self
            },
            None => self,
        }
    }

    /// The session with the scroll offsets of the detail view within what
    /// panes at `message` and `content` leave to scroll past.
    pub open spec fn detail_settled(self, message: Rect, content: Rect) -> Session {
        match self.commit_view {
            Some(view) => self.message_clamped(
                message_limit(self.records[view.index as int].message@, message),
            ).content_scrolled(content.height, 0),
            None => self,
        }
    }

    /// The session as a frame within `frame` shows it: with the list open,
    /// its cursor on a record that is held; with the detail view open, the
    /// message and the content scrolled past no more than does not fit into
    /// their panes. Nothing else differs.
    pub open spec fn settled_in(self, frame: Rect) -> Session {
        match self.commit_view {
            Some(view) => {
                let panes = detail_panes(main_area(frame));
                self.detail_settled(panes.message, panes.content)
            },
            None => self.settled(),
        }
    }

    /// The session with `offset` as the first visible row of the list that
    /// is on screen: the files of the detail view if that is open, the
    /// records otherwise.
    pub open spec fn with_offset(self, offset: usize) -> Session {
        match self.commit_view {
            Some(view) => self.with_view(
                Some(
                    CommitView {
                        files_state: ScrollCursor { selected: view.files_state.selected, offset },
                        ..view
                    },
                ),
            ),
            None => self.with_cursor(ScrollCursor { selected: self.log_state.selected, offset }),
        }
    }

    /// A key press: the session after it and what is asked of the caller.
    /// An overlay takes the key, whatever it is, and goes away; without one
    /// the key goes to the view that is open.
    pub open spec fn handled(self, key: Key, size: Size) -> (Session, Action) {
        if self.popup is Some {
            (self.with_popup(None), Action::Continue)
        } else if self.commit_view is Some {
            self.detail_key(key, size)
        } else {
            self.log_key(key, size)
        }
    }
}

/// The help shown above the list of records.
pub fn make_log_help_text() -> (help: Vec<String>)
    ensures
        help.deep_view() == log_help_text(),
{
    let mut help: Vec<String> = Vec::new();
    help.push("h           this help".to_owned());
    help.push("q  esc      close window".to_owned());
    help.push("".to_owned());
    help.push("1           short log".to_owned());
    help.push("2           regular log".to_owned());
    help.push("3           log with stat".to_owned());
    help.push("".to_owned());
    help.push("j  ↓        next commit".to_owned());
    help.push("k  ↑        previous commit".to_owned());
    help.push("d  pgdown   down half a window".to_owned());
    help.push("u  pgup     up half a window".to_owned());
    help.push("g  home     first commit".to_owned());
    help.push("".to_owned());
    help.push("enter       show commit".to_owned());
    help.push("x           exec git log".to_owned());
    assert(help.deep_view() =~= log_help_text());
    help
}

/// The help shown above the detail view of a record.
pub fn make_commit_help_text() -> (help: Vec<String>)
    ensures
        help.deep_view() == commit_help_text(),
{
    let mut help: Vec<String> = Vec::new();
    help.push("h           this help".to_owned());
    help.push("q  esc      close window".to_owned());
    help.push("".to_owned());
    help.push("n           next file".to_owned());
    help.push("p           previous file".to_owned());
    help.push("".to_owned());
    help.push("j           down one line".to_owned());
    help.push("k           up one line".to_owned());
    help.push("d  pgdown   down half a window".to_owned());
    help.push("u  pgup     up half a window".to_owned());
    help.push("".to_owned());
    help.push("↓           scroll commit message down".to_owned());
    help.push("↑           scroll commit message up".to_owned());
    assert(help.deep_view() =~= commit_help_text());
    help
}

/// The scroll offset after a move by `amount` rows in content of `rows`
/// rows, in a viewport of `viewport` rows: see [`scrolled_to`].
pub fn scroll_offset(scroll: u16, amount: i16, rows: usize, viewport: u16) -> (offset: u16)
    ensures
        offset == scrolled_to(scroll, amount as int, rows as nat, viewport),
        offset <= scroll_limit(rows as nat, viewport),
{
    let beyond: usize = if rows < viewport as usize {
        0
    } else {
        rows - viewport as usize
    };
    let max: u16 = cap_rows(beyond);
    let target: i32 = scroll as i32 + amount as i32;
    if target < 0 {
        0
    } else if target > max as i32 {
        max
    } else {
        target as u16
    }
}

/// Scrolls the content shown by `amount` rows, if any is shown, in a
/// viewport of the size `viewport`. The offset stays within the rows that
/// do not fit into the viewport.
pub fn scroll_file(show_file_option: &mut Option<FileView>, viewport: &Size, amount: i16)
    ensures
        *final(show_file_option) == match *old(show_file_option) {
            Some(view) => Some(file_scrolled(view, viewport.height, amount as int)),
            None => None,
        },
        *final(show_file_option) matches Some(view) ==> view.scroll <= scroll_limit(
            text_rows(view.contents).len(),
            viewport.height,
        ),
{
    let shown = show_file_option.take();
    if let Some(mut view) = shown {
        let rows: usize = text_height(&view.contents);
        view.scroll = scroll_offset(view.scroll, amount, rows, viewport.height);
        *show_file_option = Some(view);
    }
}

/// The size of the pane that shows the content of a file in a terminal of
/// `term_size`: see [`content_viewport`].
pub fn content_size(term_size: &Size) -> (viewport: Size)
    ensures
        viewport == content_viewport(*term_size),
{
    let frame = Rect { x: 0, y: 0, width: term_size.width, height: term_size.height };
    let pane = detail_areas(view_area(frame)).content;
    Size { width: pane.width, height: pane.height }
}

/// A cursor brought onto a list of `count` rows: see [`settled_cursor`].
pub fn settle_cursor(cursor: ScrollCursor, count: usize) -> (settled: ScrollCursor)
    ensures
        settled == settled_cursor(cursor, count as nat),
{
    let mut settled = cursor;
    if count == 0 {
        settled.select(None);
    } else if let Some(index) = cursor.selected {
        if index >= count {
            settled.select(Some(count - 1));
        }
    }
    settled
}

/// The lines of an overlay that shows `message`.
pub fn error_lines(message: &str) -> (lines: Vec<String>)
    ensures
        lines.deep_view() == message_lines(message@),
{
    if message.unicode_len() == 0 {
        let mut lines: Vec<String> = Vec::new();
        lines.push(String::new());
        assert(lines.deep_view() =~= message_lines(message@));
        lines
    } else {
        split_lines(message)
    }
}

impl CommitView {
    /// Selects nothing new but drops the content shown, and says whether
    /// content is to be rendered for file `index` of the record.
    pub fn show_file(&mut self, commit_infos: &Vec<CommitInfo>, index: usize) -> (load: bool)
        requires
            old(self).index < commit_infos@.len(),
            index < commit_infos@[old(self).index as int].files@.len(),
        ensures
            *final(self) == (CommitView { file_view: None, ..*old(self) }),
            load == commit_infos@[old(self).index as int].files@[index as int].showable(),
    {
        self.file_view = None;
        commit_infos[self.index].files[index].is_showable()
    }
}

impl App {
    /// A session that has fetched nothing yet and shows the list of records.
    pub fn new(decorations: Decorations, revision_range: String, show_only: bool) -> (app: App)
        ensures
            app@ == (Session {
                revision_range: revision_range@,
                show_only,
                records: Seq::empty(),
                exhausted: false,
                decorations,
                log_mode: LogMode::Short,
                log_state: ScrollCursor { selected: None, offset: 0 },
                commit_view: None,
                popup: None,
            }),
            app@.wf(),
    {
        App {
            revision_range,
            show_only,
            commit_infos: Vec::new(),
            exhausted: false,
            decorations,
            log_mode: LogMode::Short,
            log_state: ScrollCursor::new(),
            commit_view: None,
            popup: None,
        }
    }

    /// Opens the detail view of record `index`. Where the record has files,
    /// the first is selected and its content is asked for.
    pub fn show_commit(&mut self, index: usize) -> (action: Action)
        requires
            index < old(self)@.records.len(),
        ensures
            final(self)@ == old(self)@.opened(index).0,
            action == old(self)@.opened(index).1,
            final(self)@.wf(),
    {
        let mut view = CommitView {
            index,
            message_scroll: 0,
            files_state: ScrollCursor::new(),
            file_view: None,
        };
        let mut action = Action::Continue;
        if self.commit_infos[index].files.len() > 0 {
            view.files_state.select_first();
            if view.show_file(&self.commit_infos, 0) {
                action = Action::LoadFile { record: index, file: 0 };
            }
        }
        self.commit_view = Some(view);
        action
    }

    /// Drops the content shown in the detail view and asks for that of file
    /// `index` of its record, where it can be shown.
    pub fn show_commit_file(&mut self, index: usize) -> (action: Action)
        requires
            old(self)@.wf(),
            old(self)@.commit_view is Some,
            index < old(self)@.records[old(self)@.commit_view.unwrap().index as int].files@.len(),
        ensures
            final(self)@ == old(self)@.with_view(
                Some(CommitView { file_view: None, ..old(self)@.commit_view.unwrap() }),
            ),
            action == old(self)@.load_action(old(self)@.commit_view.unwrap().index, index),
    {
        let mut view = self.commit_view.take().unwrap();
        let load = view.show_file(&self.commit_infos, index);
        let record = view.index;
        self.commit_view = Some(view);
        if load {
            Action::LoadFile { record, file: index }
        } else {
            Action::Continue
        }
    }

    /// The number of records that a frame needs in a terminal of this size.
    pub fn needed(&self, term_size: &Size) -> (count: usize)
        ensures
            count == self@.needed(*term_size),
    {
        if self.show_only {
            1
        } else {
            let per_window: usize = (term_size.height / 2) as usize;
            let index: usize = match self.log_state.selected {
                Some(index) => index,
                None => 0,
            };
            per_window.saturating_add(index)
        }
    }

    /// Whether the provider is to be asked for one more record on the way
    /// to `target_len` records.
    pub fn wants_record(&self, target_len: usize) -> (wanted: bool)
        ensures
            wanted == self@.wants_record(target_len),
    {
        !self.exhausted && self.commit_infos.len() < target_len
    }

    /// Takes the provider's answer and says whether to go on asking in this
    /// frame: only after a record.
    pub fn record_fetched(&mut self, answer: Fetched) -> (go_on: bool)
        ensures
            final(self)@ == old(self)@.fetched(answer),
            go_on == (answer is Record),
            old(self)@.wf() ==> final(self)@.wf(),
    {
        match answer {
            Fetched::Record(record) => {
                self.commit_infos.push(record);
                true
            },
            Fetched::Exhausted => {
                self.exhausted = true;
                false
            },
            Fetched::Failed(message) => {
                self.popup = Some(error_lines(message.as_str()));
                false
            },
        }
    }

    /// Fills the buffer up to `target_len` records: asks `next` for one record
    /// at a time and appends each, until that many are held, the provider says
    /// that it is exhausted, or it fails. A failure becomes the overlay and is
    /// reported; the records fetched before it stay. Nothing is asked of a
    /// provider that has said that it is exhausted. The provider has to be
    /// one that can be asked; every answer taken is one that it gave.
    pub fn ensure_filled<F: FnMut() -> Fetched>(
        &mut self,
        target_len: usize,
        next: &mut F,
    ) -> (failed: bool)
        requires
            call_requires(*old(next), ()),
        ensures
            exists|answers: Seq<Fetched>|
                {
                    &&& #[trigger] old(self)@.answered(answers, target_len) == final(self)@
                    &&& failed <==> answers.len() > 0 && answers.last() is Failed
                    &&& forall|i: int|
                        0 <= i < answers.len() ==> call_ensures(*old(next), (), #[trigger] answers[i])
                },
            final(self)@ == (Session {
                records: final(self)@.records,
                exhausted: final(self)@.exhausted,
                popup: final(self)@.popup,
                ..old(self)@
            }),
            old(self)@.records.len() <= final(self)@.records.len(),
            final(self)@.records.take(old(self)@.records.len() as int) == old(self)@.records,
            final(self)@.records.len() <= old(self)@.records.len() || final(self)@.records.len()
                <= target_len,
            old(self)@.exhausted ==> final(self)@.exhausted,
            !old(self)@.wants_record(target_len) ==> final(self)@ == old(self)@ && !failed,
            failed ==> final(self)@.popup is Some && final(self)@.exhausted == old(self)@.exhausted,
            !failed ==> final(self)@.popup == old(self)@.popup && !final(self)@.wants_record(
                target_len,
            ),
            old(self)@.wf() ==> final(self)@.wf(),
    {
        let ghost start = self@;
        let ghost mut given: Seq<Fetched> = Seq::empty();
        assert(self@.records.take(start.records.len() as int) =~= start.records);
        while self.wants_record(target_len)
            invariant
                call_requires(*next, ()),
                *next == *old(next),
                start == old(self)@,
                forall|i: int| 0 <= i < given.len() ==> given[i] is Record,
                forall|i: int| 0 <= i < given.len() ==> call_ensures(*next, (), #[trigger] given[i]),
                start.answered(given, target_len) == self@,
                self@ == (Session {
                    records: self@.records,
                    exhausted: self@.exhausted,
                    popup: start.popup,
                    ..start
                }),
                start.records.len() <= self@.records.len(),
                self@.records.take(start.records.len() as int) == start.records,
                self@.records.len() <= start.records.len() || self@.records.len() <= target_len,
                start.exhausted ==> self@.exhausted,
                !start.wants_record(target_len) ==> self@ == start,
                start.wf() ==> self@.wf(),
            decreases target_len - self@.records.len(),
        {
            let answer = next();
            let failure = match &answer {
                Fetched::Failed(_) => true,
                _ => false,
            };
            let go_on = self.record_fetched(answer);
            assert(self@.records.take(start.records.len() as int) =~= start.records);
            proof {
                lemma_answered_push(start, given, answer, target_len);
                given = given.push(answer);
            }
            if !go_on {
                return failure;
            }
        }
        false
    }

    /// In a session that shows a single record, opens that record once it is
    /// fetched.
    pub fn open_single(&mut self) -> (action: Action)
        requires
            old(self)@.wf(),
        ensures
            final(self)@ == old(self)@.single_opened().0,
            action == old(self)@.single_opened().1,
            final(self)@.wf(),
    {
        if self.show_only && self.commit_view.is_none() && self.commit_infos.len() > 0 {
            self.show_commit(0)
        } else {
            Action::Continue
        }
    }

    /// Takes the content rendered for file `file` of record `record`.
    pub fn file_loaded(&mut self, record: usize, file: usize, contents: Text<'static>)
        requires
            old(self)@.wf(),
        ensures
            final(self)@ == old(self)@.file_shown(record, file, contents),
            final(self)@.wf(),
    {
        if let Some(mut view) = self.commit_view.take() {
            let selected = match view.files_state.selected {
                Some(current) => current == file,
                None => false,
            };
            if view.index == record && selected {
                view.file_view = Some(FileView { contents, scroll: 0 });
            }
            self.commit_view = Some(view);
        }
    }

    /// The arguments with which the history command shows what the list
    /// shows.
    pub fn exec_log_args(&self) -> (args: Vec<String>)
        ensures
            args.deep_view() == self@.log_args(),
    {
        let mut args: Vec<String> = Vec::new();
        args.push("log".to_owned());
        args.push(self.revision_range.clone());
        match self.log_mode {
            LogMode::Short => {
                args.push(
                    "--pretty=format:%C(yellow)%h%Creset %Cgreen(%cd) %C(bold blue)%aN%Creset %C(red)%d%Creset%n\t%s".to_owned(),
                );
            },
            LogMode::Medium => {},
            LogMode::Long => {
                args.push("--stat".to_owned());
            },
        }
        assert(args.deep_view() =~= self@.log_args());
        args
    }

    /// The records fetched so far, oldest request first.
    pub fn commit_infos(&self) -> (records: &Vec<CommitInfo>)
        ensures
            records@ == self@.records,
    {
        &self.commit_infos
    }

    /// The branches and tags of the repository.
    pub fn decorations(&self) -> (decorations: &Decorations)
        ensures
            *decorations == self@.decorations,
    {
        &self.decorations
    }

    /// How much of each record the list shows.
    pub fn log_mode(&self) -> (mode: LogMode)
        ensures
            mode == self@.log_mode,
    {
        self.log_mode
    }

    /// The cursor of the list of records.
    pub fn log_state(&self) -> (cursor: ScrollCursor)
        ensures
            cursor == self@.log_state,
    {
        self.log_state
    }

    /// The detail view, if one is open.
    pub fn commit_view(&self) -> (view: Option<&CommitView>)
        ensures
            match view {
                Some(open) => self@.commit_view == Some(*open),
                None => self@.commit_view is None,
            },
    {
        self.commit_view.as_ref()
    }

    /// The lines of the overlay, if one is shown.
    pub fn popup(&self) -> (lines: Option<&Vec<String>>)
        ensures
            match lines {
                Some(shown) => self@.popup == Some(shown.deep_view()),
                None => self@.popup is None,
            },
    {
        self.popup.as_ref()
    }

    /// Whether the session shows a single record.
    pub fn show_only(&self) -> (single: bool)
        ensures
            single == self@.show_only,
    {
        self.show_only
    }

    /// Whether the provider has said that it has no more records.
    pub fn exhausted(&self) -> (done: bool)
        ensures
            done == self@.exhausted,
    {
        self.exhausted
    }

    /// The range of the history that the session browses.
    pub fn revision_range(&self) -> (range: &str)
        ensures
            range@ == self@.revision_range,
    {
        self.revision_range.as_str()
    }

    /// Whether the session is well formed: see [`Session::wf`]. Every session
    /// that this module hands out is.
    pub fn well_formed(&self) -> (ok: bool)
        ensures
            ok == self@.wf(),
    {
        match &self.commit_view {
            None => true,
            Some(view) => {
                if view.index >= self.commit_infos.len() {
                    return false;
                }
                let count: usize = self.commit_infos[view.index].files.len();
                let cursor_ok = match view.files_state.selected {
                    Some(file) => file < count,
                    None => count == 0,
                };
                cursor_ok && (view.file_view.is_none() || view.files_state.selected.is_some())
            },
        }
    }

    /// Brings the cursor of the list onto a record that is held: see
    /// [`Session::settled`].
    pub fn settle_log_cursor(&mut self)
        ensures
            final(self)@ == old(self)@.settled(),
            old(self)@.wf() ==> final(self)@.wf(),
    {
        self.log_state = settle_cursor(self.log_state, self.commit_infos.len());
    }

    /// Settles the session for a frame within `frame`, before it is drawn:
    /// see [`Session::settled_in`]. The bounds are those of this frame: with
    /// the list open its cursor comes onto a record that is held; with the
    /// detail view open the message and the content are scrolled past no
    /// more than does not fit into their panes.
    pub fn settle(&mut self, frame: Rect)
        requires
            old(self)@.wf(),
        ensures
            final(self)@ == old(self)@.settled_in(frame),
            final(self)@.wf(),
    {
        if let Some(mut view) = self.commit_view.take() {
            let panes = detail_areas(view_area(frame));
            let limit =
                message_scroll_limit(self.commit_infos[view.index].message.as_str(), panes.message);
            if view.message_scroll > limit {
                view.message_scroll = limit;
            }
            let viewport = Size { width: panes.content.width, height: panes.content.height };
            scroll_file(&mut view.file_view, &viewport, 0);
            self.commit_view = Some(view);
        } else {
            self.settle_log_cursor();
        }
    }

    /// Records the first visible row that drawing the list on screen settled
    /// on: see [`Session::with_offset`].
    pub fn set_list_offset(&mut self, offset: usize)
        ensures
            final(self)@ == old(self)@.with_offset(offset),
            old(self)@.wf() ==> final(self)@.wf(),
    {
        if let Some(mut view) = self.commit_view.take() {
            view.files_state.offset = offset;
            self.commit_view = Some(view);
        } else {
            self.log_state.offset = offset;
        }
    }

    fn move_file(&mut self, amount: i16) -> (action: Action)
        requires
            old(self)@.wf(),
            old(self)@.commit_view is Some,
        ensures
            final(self)@ == old(self)@.file_moved(amount as int).0,
            action == old(self)@.file_moved(amount as int).1,
    {
        let mut view = self.commit_view.take().unwrap();
        let count: usize = self.commit_infos[view.index].files.len();
        if count == 0 {
            self.commit_view = Some(view);
            return Action::Continue;
        }
        let before = view.files_state.selected;
        let index = scroll(&mut view.files_state, amount, Some(count - 1));
        let unmoved = match before {
            Some(from) => from == index,
            None => false,
        };
        if unmoved {
            self.commit_view = Some(view);
            return Action::Continue;
        }
        self.commit_view = Some(view);
        self.show_commit_file(index)
    }

    fn detail_input(&mut self, key: &Key, term_size: &Size) -> (action: Action)
        requires
            old(self)@.wf(),
            old(self)@.commit_view is Some,
        ensures
            final(self)@ == old(self)@.detail_key(*key, *term_size).0,
            action == old(self)@.detail_key(*key, *term_size).1,
    {
        if *key == Key::Char('n') {
            return self.move_file(1);
        } else if *key == Key::Char('p') {
            return self.move_file(-1);
        }
        let mut view = self.commit_view.take().unwrap();
        let half: i16 = (term_size.height / 2) as i16;
        let mut action = Action::Continue;
        let mut keep = true;
        if *key == Key::Down {
            view.message_scroll = view.message_scroll.saturating_add(1);
        } else if *key == Key::Up {
            view.message_scroll = view.message_scroll.saturating_sub(1);
        } else if *key == Key::Char('j') {
            scroll_file(&mut view.file_view, &content_size(term_size), 1);
        } else if *key == Key::Char('k') {
            scroll_file(&mut view.file_view, &content_size(term_size), -1);
        } else if *key == Key::Char('d') || *key == Key::PageDown {
            scroll_file(&mut view.file_view, &content_size(term_size), half);
        } else if *key == Key::Char('u') || *key == Key::PageUp {
            scroll_file(&mut view.file_view, &content_size(term_size), -half);
        } else if *key == Key::Char('h') {
            self.popup = Some(make_commit_help_text());
        } else if *key == Key::Char('q') || *key == Key::Esc {
            if self.show_only {
                action = Action::Quit;
            } else {
                keep = false;
            }
        }
        if keep {
            self.commit_view = Some(view);
        }
        action
    }

    fn log_input(&mut self, key: &Key, term_size: &Size) -> (action: Action)
        requires
            old(self)@.wf(),
            old(self)@.commit_view is None,
        ensures
            final(self)@ == old(self)@.log_key(*key, *term_size).0,
            action == old(self)@.log_key(*key, *term_size).1,
    {
        let quarter: i16 = (term_size.height / 4) as i16;
        if *key == Key::Char('j') || *key == Key::Down {
            scroll(&mut self.log_state, 1, None);
        } else if *key == Key::Char('k') || *key == Key::Up {
            scroll(&mut self.log_state, -1, None);
        } else if *key == Key::Char('d') || *key == Key::PageDown {
            scroll(&mut self.log_state, quarter, None);
        } else if *key == Key::Char('u') || *key == Key::PageUp {
            scroll(&mut self.log_state, -quarter, None);
        } else if *key == Key::Char('g') || *key == Key::Home {
            self.log_state.select_first();
        } else if *key == Key::Char('1') {
            self.log_mode = LogMode::Short;
        } else if *key == Key::Char('2') {
            self.log_mode = LogMode::Medium;
        } else if *key == Key::Char('3') {
            self.log_mode = LogMode::Long;
        } else if *key == Key::Enter {
            if let Some(index) = self.log_state.selected {
                if index < self.commit_infos.len() {
                    return self.show_commit(index);
                }
            }
        } else if *key == Key::Char('h') {
            self.popup = Some(make_log_help_text());
        } else if *key == Key::Char('x') {
            return Action::ExecLog;
        } else if *key == Key::Char('q') || *key == Key::Esc {
            return Action::Quit;
        }
        Action::Continue
    }
}

/// Handles one key press: changes the session as [`Session::handled`] says
/// and returns what the caller has to do next.
pub fn handle_input(key: &Key, app: &mut App, term_size: &Size) -> (action: Action)
    requires
        old(app)@.wf(),
    ensures
        final(app)@ == old(app)@.handled(*key, *term_size).0,
        action == old(app)@.handled(*key, *term_size).1,
        final(app)@.wf(),
{
    proof {
        lemma_handled_wf(app@, *key, *term_size);
    }
    if app.popup.is_some() {
        app.popup = None;
        return Action::Continue;
    }
    if app.commit_view.is_some() {
        app.detail_input(key, term_size)
    } else {
        app.log_input(key, term_size)
    }
}

/// One more answer after records that were all wanted is taken by the session
/// that those records left.
proof fn lemma_answered_push(
    session: Session,
    given: Seq<Fetched>,
    answer: Fetched,
    target_len: usize,
)
    requires
        forall|i: int| 0 <= i < given.len() ==> given[i] is Record,
        session.answered(given, target_len).wants_record(target_len),
    ensures
        session.answered(given.push(answer), target_len) == session.answered(
            given,
            target_len,
        ).fetched(answer),
    decreases given.len(),
{
    let more = given.push(answer);
    if given.len() == 0 {
        assert(more.drop_first() =~= Seq::<Fetched>::empty());
        assert(more[0] == answer);
        assert(session.fetched(answer).answered(more.drop_first(), target_len) == session.fetched(
            answer,
        ));
    } else {
        let rest = given.drop_first();
        assert(more.drop_first() =~= rest.push(answer));
        assert(more[0] == given[0]);
        assert(given[0] is Record);
        assert forall|i: int| 0 <= i < rest.len() implies rest[i] is Record by {
            assert(rest[i] == given[i + 1]);
        }
        assert(session.wants_record(target_len));
        lemma_answered_push(session.fetched(given[0]), rest, answer, target_len);
    }
}

/// Every key press leaves a session that is well formed.
pub proof fn lemma_handled_wf(session: Session, key: Key, size: Size)
    requires
        session.wf(),
    ensures
        session.handled(key, size).0.wf(),
{
}

} // verus!
