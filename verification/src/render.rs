//! What a frame shows: the panes of the view that is open, with their text
//! and where they stand, and the overlay above them.

use vstd::prelude::*;
use vstd::string::StringExecFns;
use crate::decor::{BranchType, Decorations};
use crate::content::text_height;
use crate::layout::{
    centered, centered_rect, detail_areas, detail_panes, in_the_middle, main_area, view_area,
    Direction, Rect,
};
use crate::record::{hex_of, CommitInfo, Delta, FileChange};
use crate::session::{scroll_offset, settle_cursor, App, LogMode, Session};
use crate::styled::{
    append_lines, blank, line_views, plain, push_line, push_span, span_views, strong, tinted, Hue,
    Line, Span, SpanView,
};
use crate::text::{from_utf8_lossy, lines_of, lossy_text, split_lines};
use crate::wrap::{message_scroll_limit, wrap_line, wrapped_lines};

verus! {

/// A list of items of one or more lines each, with its selection.
pub struct ListPane {
    pub area: Rect,
    pub items: Vec<Vec<Line>>,
    pub selected: Option<usize>,
    pub offset: usize,
    /// The number of items kept visible above and below the selected one.
    pub scroll_padding: usize,
    /// The background of the selected item.
    pub highlight: Hue,
}

/// The list of records with the bar of densities below it.
pub struct LogScreen {
    pub list: ListPane,
    pub bar: Line,
    pub bar_area: Rect,
}

/// The detail view of a record: its message, its files and the content of
/// the selected file.
pub struct DetailScreen {
    pub message_area: Rect,
    pub title: String,
    pub title_hue: Hue,
    pub message: String,
    pub message_scroll: u16,
    pub files: ListPane,
    pub content_area: Rect,
    /// The rows scrolled past in the content shown, if any is shown.
    pub content_scroll: Option<u16>,
}

/// The panes of the view that is open.
pub enum Body {
    Log(LogScreen),
    Detail(DetailScreen),
}

/// The overlay: a box, the area of its text within it, and its lines.
pub struct PopupPane {
    pub area: Rect,
    pub inner: Rect,
    pub lines: Vec<String>,
}

/// What one frame shows. The overlay is drawn last, above the body.
pub struct Screen {
    pub body: Body,
    pub popup: Option<PopupPane>,
}

/// The views of the lines of each item of `items`.
pub open spec fn item_views(items: Seq<Vec<Line>>) -> Seq<Seq<Seq<SpanView>>> {
    Seq::new(items.len(), |i: int| line_views(items[i]@))
}

/// The identifier of a record as the list shows it: in full in the long
/// density, its first eight digits otherwise.
pub open spec fn shown_id(ci: CommitInfo, mode: LogMode) -> Seq<char> {
    if mode is Long {
        hex_of(ci.commit_id@)
    } else {
        hex_of(ci.commit_id@).take(8)
    }
}

/// The author of a record: the name in bold, the address in brackets.
pub open spec fn author_spans(ci: CommitInfo) -> Seq<SpanView> {
    seq![
        strong(ci.author_name@, Hue::LightBlue),
        tinted(" <"@ + ci.author_email@ + ">"@, Hue::Blue),
    ]
}

/// The colour of a branch name.
pub open spec fn branch_hue(kind: BranchType) -> Hue {
    match kind {
        BranchType::Local => Hue::LightGreen,
        BranchType::Remote => Hue::LightRed,
    }
}

/// The spans of the branch names of a record, a blank before each.
pub open spec fn branch_spans(names: Seq<(String, BranchType)>) -> Seq<SpanView>
    decreases names.len(),
{
    if names.len() == 0 {
        Seq::empty()
    } else {
        branch_spans(names.drop_last()) + seq![
            plain(" "@),
            tinted(names.last().0@, branch_hue(names.last().1)),
        ]
    }
}

/// The spans of the tag names of a record, a blank before each.
pub open spec fn tag_spans(names: Seq<String>) -> Seq<SpanView>
    decreases names.len(),
{
    if names.len() == 0 {
        Seq::empty()
    } else {
        tag_spans(names.drop_last()) + seq![plain(" "@), tinted(names.last()@, Hue::LightYellow)]
    }
}

/// The first line of a record in the list: identifier and time, the author
/// unless the density is long, then the branches and the tags that point at
/// the record, in the order in which the repository listed them.
pub open spec fn first_line(
    ci: CommitInfo,
    mode: LogMode,
    decorations: Decorations,
) -> Seq<SpanView> {
    seq![tinted(shown_id(ci, mode), Hue::Yellow), plain(" "@), tinted(ci.time@, Hue::Green)] + (
    if mode is Long {
        Seq::empty()
    } else {
        seq![plain(" "@)] + author_spans(ci)
    }) + branch_spans(decorations.branches.names(ci.commit_id@)) + tag_spans(
        decorations.tags.names(ci.commit_id@),
    )
}

/// The display lines of `lines`, each wrapped to `width` columns.
pub open spec fn wrapped_all(lines: Seq<Seq<char>>, width: u16) -> Seq<Seq<SpanView>>
    decreases lines.len(),
{
    if lines.len() == 0 {
        Seq::empty()
    } else {
        wrapped_all(lines.drop_last(), width) + wrapped_lines(lines.last(), width)
    }
}

/// The lines of a record in the list. Short: the first line and the wrapped
/// summary. Medium: the first line, the wrapped message and a blank line.
/// Long: the first line, the author, a blank line, the wrapped message, a
/// blank line, the statistics and a blank line.
pub open spec fn item_lines(
    ci: CommitInfo,
    mode: LogMode,
    decorations: Decorations,
    width: u16,
) -> Seq<Seq<SpanView>> {
    seq![first_line(ci, mode, decorations)] + (if mode is Long {
        seq![author_spans(ci), blank()]
    } else {
        Seq::empty()
    }) + (if mode is Short {
        wrapped_lines(ci.summary@, width)
    } else {
        wrapped_all(lines_of(ci.message@), width) + seq![blank()]
    }) + (if mode is Long {
        line_views(ci.stats@) + seq![blank()]
    } else {
        Seq::empty()
    })
}

fn author_into(spans: &mut Vec<Span>, ci: &CommitInfo)
    ensures
        span_views(final(spans)@) == span_views(old(spans)@) + author_spans(*ci),
{
    let mut address = " <".to_owned();
    address.append(ci.author_email.as_str());
    address.append(">");
    push_span(spans, Span::strong(ci.author_name.clone(), Hue::LightBlue));
    push_span(spans, Span::tinted(address, Hue::Blue));
    assert(span_views(spans@) =~= span_views(old(spans)@) + author_spans(*ci));
}

fn first_line_of(ci: &CommitInfo, log_mode: &LogMode, decorations: &Decorations) -> (line: Line)
    ensures
        line@ == first_line(*ci, *log_mode, *decorations),
{
    let long = match log_mode {
        LogMode::Long => true,
        _ => false,
    };
    let id = if long {
        ci.commit_id.to_hex()
    } else {
        ci.commit_id.hex_prefix(8)
    };
    let mut spans: Vec<Span> = Vec::new();
    assert(span_views(spans@) =~= Seq::<SpanView>::empty());
    push_span(&mut spans, Span::tinted(id, Hue::Yellow));
    push_span(&mut spans, Span::raw(" ".to_owned()));
    push_span(&mut spans, Span::tinted(ci.time.clone(), Hue::Green));
    let ghost head = seq![
        tinted(shown_id(*ci, *log_mode), Hue::Yellow),
        plain(" "@),
        tinted(ci.time@, Hue::Green),
    ];
    assert(span_views(spans@) =~= head);
    if !long {
        push_span(&mut spans, Span::raw(" ".to_owned()));
        author_into(&mut spans, ci);
    }
    let ghost with_author = head + (if *log_mode is Long {
        Seq::empty()
    } else {
        seq![plain(" "@)] + author_spans(*ci)
    });
    assert(span_views(spans@) =~= with_author);
    let ghost branch_list = decorations.branches.names(ci.commit_id@);
    if let Some(branches) = decorations.branches.get(&ci.commit_id) {
        let mut i: usize = 0;
        while i < branches.len()
            invariant
                i <= branches.len(),
                branches@ == branch_list,
                span_views(spans@) == with_author + branch_spans(branch_list.take(i as int)),
            decreases branches.len() - i,
        {
            let kind = branches[i].1;
            let hue = match kind {
                BranchType::Local => Hue::LightGreen,
                BranchType::Remote => Hue::LightRed,
            };
            let ghost before = span_views(spans@);
            push_span(&mut spans, Span::raw(" ".to_owned()));
            push_span(&mut spans, Span::tinted(branches[i].0.clone(), hue));
            proof {
                assert(branch_list.take(i + 1).drop_last() =~= branch_list.take(i as int));
                assert(span_views(spans@) =~= with_author + branch_spans(branch_list.take(i + 1)));
            }
            i += 1;
        }
        assert(branch_list.take(i as int) =~= branch_list);
    } else {
        assert(with_author + branch_spans(branch_list) =~= with_author);
    }
    let ghost with_branches = with_author + branch_spans(branch_list);
    let ghost tag_list = decorations.tags.names(ci.commit_id@);
    if let Some(tags) = decorations.tags.get(&ci.commit_id) {
        let mut j: usize = 0;
        while j < tags.len()
            invariant
                j <= tags.len(),
                tags@ == tag_list,
                span_views(spans@) == with_branches + tag_spans(tag_list.take(j as int)),
            decreases tags.len() - j,
        {
            push_span(&mut spans, Span::raw(" ".to_owned()));
            push_span(&mut spans, Span::tinted(tags[j].clone(), Hue::LightYellow));
            proof {
                assert(tag_list.take(j + 1).drop_last() =~= tag_list.take(j as int));
                assert(span_views(spans@) =~= with_branches + tag_spans(tag_list.take(j + 1)));
            }
            j += 1;
        }
        assert(tag_list.take(j as int) =~= tag_list);
    } else {
        assert(with_branches + tag_spans(tag_list) =~= with_branches);
    }
    Line::from_spans(spans)
}

fn wrap_all(lines: &mut Vec<Line>, text: &str, width: u16)
    ensures
        line_views(final(lines)@) == line_views(old(lines)@) + wrapped_all(lines_of(text@), width),
{
    let pieces = split_lines(text);
    let ghost before = line_views(lines@);
    let ghost all = lines_of(text@);
    let mut i: usize = 0;
    assert(before + wrapped_all(all.take(0), width) =~= before);
    while i < pieces.len()
        invariant
            i <= pieces.len(),
            pieces.deep_view() == all,
            line_views(lines@) == before + wrapped_all(all.take(i as int), width),
        decreases pieces.len() - i,
    {
        assert(pieces.deep_view()[i as int] == pieces@[i as int]@);
        let wrapped = wrap_line(pieces[i].as_str(), width);
        append_lines(lines, wrapped);
        proof {
            assert(all.take(i + 1).drop_last() =~= all.take(i as int));
            assert(all.take(i + 1).last() == all[i as int]);
            assert(line_views(lines@) =~= before + wrapped_all(all.take(i + 1), width));
        }
        i += 1;
    }
    assert(pieces.deep_view().len() == pieces@.len());
    assert(all.take(i as int) =~= all);
}

/// The lines of one record in the list of records: see [`item_lines`].
pub fn commit_info_to_item(
    ci: &CommitInfo,
    log_mode: &LogMode,
    decorations: &Decorations,
    width: u16,
) -> (item: Vec<Line>)
    ensures
        line_views(item@) == item_lines(*ci, *log_mode, *decorations, width),
{
    let mut lines: Vec<Line> = Vec::new();
    assert(line_views(lines@) =~= Seq::<Seq<SpanView>>::empty());
    push_line(&mut lines, first_line_of(ci, log_mode, decorations));
    match log_mode {
        LogMode::Short => {
            append_lines(&mut lines, wrap_line(ci.summary.as_str(), width));
            assert(line_views(lines@) =~= item_lines(*ci, *log_mode, *decorations, width));
        },
        LogMode::Medium => {
            wrap_all(&mut lines, ci.message.as_str(), width);
            push_line(&mut lines, Line::blank());
            assert(line_views(lines@) =~= item_lines(*ci, *log_mode, *decorations, width));
        },
        LogMode::Long => {
            let mut author: Vec<Span> = Vec::new();
            assert(span_views(author@) =~= Seq::<SpanView>::empty());
            author_into(&mut author, ci);
            assert(span_views(author@) =~= author_spans(*ci));
            push_line(&mut lines, Line::from_spans(author));
            push_line(&mut lines, Line::blank());
            wrap_all(&mut lines, ci.message.as_str(), width);
            push_line(&mut lines, Line::blank());
            let ghost before = line_views(lines@);
            let mut i: usize = 0;
            assert(before + line_views(ci.stats@.take(0)) =~= before);
            while i < ci.stats.len()
                invariant
                    i <= ci.stats.len(),
                    line_views(lines@) == before + line_views(ci.stats@.take(i as int)),
                decreases ci.stats.len() - i,
            {
                push_line(&mut lines, ci.stats[i].copy());
                assert(line_views(lines@) =~= before + line_views(ci.stats@.take(i + 1)));
                i += 1;
            }
            assert(ci.stats@.take(i as int) =~= ci.stats@);
            push_line(&mut lines, Line::blank());
            assert(line_views(lines@) =~= item_lines(*ci, *log_mode, *decorations, width));
        },
    }
    lines
}

/// A path as text, empty where the path is absent.
pub open spec fn path_text(path: Option<Vec<u8>>) -> Seq<char> {
    match path {
        Some(bytes) => lossy_text(bytes@),
        None => Seq::empty(),
    }
}

/// The label of a file change in the list of files: its path, after the
/// path it had before where it was renamed or copied.
pub open spec fn file_label(change: FileChange) -> Seq<char> {
    if (change.status is Renamed || change.status is Copied) && change.old_path is Some {
        path_text(change.old_path) + " → "@ + path_text(change.path)
    } else {
        path_text(change.path)
    }
}

/// The items of the list of files: one plain line for each file change.
pub open spec fn file_items(files: Seq<FileChange>) -> Seq<Seq<Seq<SpanView>>> {
    Seq::new(files.len(), |i: int| seq![seq![plain(file_label(files[i]))]])
}

/// One entry of the bar of densities: bold and white where it names the
/// density in use, gray otherwise.
pub open spec fn bar_span(text: Seq<char>, active: bool) -> SpanView {
    if active {
        strong(text, Hue::White)
    } else {
        tinted(text, Hue::Indexed(245))
    }
}

/// The bar of densities below the list of records.
pub open spec fn mode_bar(mode: LogMode) -> Seq<SpanView> {
    seq![
        bar_span("[1] short "@, mode is Short),
        bar_span("[2] regular "@, mode is Medium),
        bar_span("[3] stat"@, mode is Long),
    ]
}

/// The area of the bar of densities: the last row of the frame.
pub open spec fn bar_area(frame: Rect) -> Rect {
    Rect::sized(frame.x, (frame.height - 1) as u16, frame.width, 1)
}

/// The items of the list of records at a width of `width` columns.
pub open spec fn log_items(session: Session, width: u16) -> Seq<Seq<Seq<SpanView>>> {
    Seq::new(
        session.records.len(),
        |i: int| item_lines(session.records[i], session.log_mode, session.decorations, width),
    )
}

impl LogScreen {
    /// Whether this is what `session` shows in the list of records within
    /// `frame`.
    pub open spec fn shows(self, session: Session, frame: Rect) -> bool {
        &&& self.list.area == main_area(frame)
        &&& item_views(self.list.items@) == log_items(session, main_area(frame).width)
        &&& self.list.selected == session.log_state.selected
        &&& self.list.offset == session.log_state.offset
        &&& self.list.scroll_padding == 5
        &&& self.list.highlight == Hue::Indexed(237)
        &&& self.bar@ == mode_bar(session.log_mode)
        &&& self.bar_area == bar_area(frame)
    }
}

impl DetailScreen {
    /// Whether this is what `session` shows in its detail view, in panes
    /// that stand at the given places.
    pub open spec fn shows(
        self,
        session: Session,
        message: Rect,
        files: Rect,
        content: Rect,
    ) -> bool {
        let view = session.commit_view.unwrap();
        let ci = session.records[view.index as int];
        &&& self.message_area == message
        &&& self.title@ == hex_of(ci.commit_id@)
        &&& self.title_hue == Hue::Yellow
        &&& self.message@ == ci.message@
        &&& self.message_scroll == view.message_scroll
        &&& self.files.area == files
        &&& item_views(self.files.items@) == file_items(ci.files@)
        &&& self.files.selected == view.files_state.selected
        &&& self.files.offset == view.files_state.offset
        &&& self.files.scroll_padding == 0
        &&& self.files.highlight == Hue::Indexed(237)
        &&& self.content_area == content
        &&& self.content_scroll == match view.file_view {
            Some(shown) => Some(shown.scroll),
            None => None,
        }
    }
}

impl PopupPane {
    /// Whether this is the overlay of `lines` above `frame`: a box in the
    /// middle of the frame that takes eighty hundredths of its width and of
    /// its height, and its text three columns and two rows inside the box.
    pub open spec fn shows(self, lines: Seq<Seq<char>>, frame: Rect) -> bool {
        &&& self.area == centered(80, 80, frame)
        &&& self.area.within(frame)
        &&& in_the_middle(self.area, Direction::Horizontal, 80, frame)
        &&& in_the_middle(self.area, Direction::Vertical, 80, frame)
        &&& self.inner == self.area.shrunk(3, 2)
        &&& self.lines.deep_view() == lines
    }
}

/// The label of a file change in the list of files: see [`file_label`].
pub fn label_of(change: &FileChange) -> (label: String)
    ensures
        label@ == file_label(*change),
{
    let name = match &change.path {
        Some(path) => from_utf8_lossy(path),
        None => String::new(),
    };
    let moved = match change.status {
        Delta::Renamed => true,
        Delta::Copied => true,
        _ => false,
    };
    if moved {
        if let Some(old_path) = &change.old_path {
            let mut label = from_utf8_lossy(old_path);
            label.append(" → ");
            label.append(name.as_str());
            return label;
        }
    }
    name
}

/// The items of the list of files of `ci`: see [`file_items`].
pub fn file_list(ci: &CommitInfo) -> (items: Vec<Vec<Line>>)
    ensures
        item_views(items@) == file_items(ci.files@),
{
    let mut items: Vec<Vec<Line>> = Vec::new();
    let mut i: usize = 0;
    while i < ci.files.len()
        invariant
            i <= ci.files.len(),
            items@.len() == i,
            forall|k: int|
                0 <= k < i ==> line_views(#[trigger] items@[k]@) == seq![
                    seq![plain(file_label(ci.files@[k]))],
                ],
        decreases ci.files.len() - i,
    {
        let mut item: Vec<Line> = Vec::new();
        item.push(Line::raw(label_of(&ci.files[i])));
        assert(line_views(item@) =~= seq![seq![plain(file_label(ci.files@[i as int]))]]);
        items.push(item);
        i += 1;
    }
    assert(item_views(items@) =~= file_items(ci.files@));
    items
}

fn bar_entry(text: &str, active: bool) -> (span: Span)
    ensures
        span@ == bar_span(text@, active),
{
    if active {
        Span::strong(text.to_owned(), Hue::White)
    } else {
        Span::tinted(text.to_owned(), Hue::Indexed(245))
    }
}

/// The bar of densities below the list of records: see [`mode_bar`].
pub fn mode_bar_line(mode: LogMode) -> (line: Line)
    ensures
        line@ == mode_bar(mode),
{
    let mut spans: Vec<Span> = Vec::new();
    spans.push(bar_entry("[1] short ", mode == LogMode::Short));
    spans.push(bar_entry("[2] regular ", mode == LogMode::Medium));
    spans.push(bar_entry("[3] stat", mode == LogMode::Long));
    assert(span_views(spans@) =~= mode_bar(mode));
    Line::from_spans(spans)
}

/// What the list of records shows within `frame`. The selection shown is on
/// a record that is held, wherever the cursor of the list stands.
pub fn log_screen(frame: Rect, app: &App) -> (screen: LogScreen)
    requires
        frame.height >= 1,
    ensures
        screen.shows(app@.settled(), frame),
{
    let area = view_area(frame);
    let records = app.commit_infos();
    let mode = app.log_mode();
    let decorations = app.decorations();
    let mut items: Vec<Vec<Line>> = Vec::new();
    let mut i: usize = 0;
    while i < records.len()
        invariant
            i <= records.len(),
            items@.len() == i,
            forall|k: int|
                0 <= k < i ==> line_views(#[trigger] items@[k]@) == item_lines(
                    records@[k],
                    mode,
                    *decorations,
                    area.width,
                ),
        decreases records.len() - i,
    {
        items.push(commit_info_to_item(&records[i], &mode, decorations, area.width));
        i += 1;
    }
    assert(item_views(items@) =~= log_items(app@.settled(), area.width));
    let cursor = settle_cursor(app.log_state(), records.len());
    LogScreen {
        list: ListPane {
            area,
            items,
            selected: cursor.selected,
            offset: cursor.offset,
            scroll_padding: 5,
            highlight: Hue::Indexed(237),
        },
        bar: mode_bar_line(mode),
        bar_area: Rect::new(frame.x, frame.height - 1, frame.width, 1),
    }
}

/// What the detail view shows in panes that stand at the given places. The
/// message and the content are shown scrolled past no more than does not
/// fit into their panes, wherever their offsets stand.
pub fn detail_screen(
    app: &App,
    message: Rect,
    files: Rect,
    content: Rect,
) -> (screen: DetailScreen)
    requires
        app@.wf(),
        app@.commit_view is Some,
    ensures
        screen.shows(app@.detail_settled(message, content), message, files, content),
{
    let view = app.commit_view().unwrap();
    let ci = &app.commit_infos()[view.index];
    let limit = message_scroll_limit(ci.message.as_str(), message);
    let message_scroll = if view.message_scroll > limit {
        limit
    } else {
        view.message_scroll
    };
    let content_scroll = match &view.file_view {
        Some(shown) => Some(
            scroll_offset(shown.scroll, 0, text_height(&shown.contents), content.height),
        ),
        None => None,
    };
    DetailScreen {
        message_area: message,
        title: ci.commit_id.to_hex(),
        title_hue: Hue::Yellow,
        message: ci.message.clone(),
        message_scroll,
        files: ListPane {
            area: files,
            items: file_list(ci),
            selected: view.files_state.selected,
            offset: view.files_state.offset,
            scroll_padding: 0,
            highlight: Hue::Indexed(237),
        },
        content_area: content,
        content_scroll,
    }
}

/// The overlay of `lines` above `frame`.
pub fn popup_pane(lines: &Vec<String>, frame: Rect) -> (pane: PopupPane)
    ensures
        pane.shows(lines.deep_view(), frame),
{
    let area = centered_rect(80, 80, frame);
    let mut copy: Vec<String> = Vec::new();
    let mut i: usize = 0;
    while i < lines.len()
        invariant
            i <= lines.len(),
            copy@.len() == i,
            forall|k: int| 0 <= k < i ==> copy@[k]@ == lines@[k]@,
        decreases lines.len() - i,
    {
        copy.push(lines[i].clone());
        i += 1;
    }
    assert(copy.deep_view() =~= lines.deep_view());
    PopupPane { area, inner: area.inner(3, 2), lines: copy }
}

/// What a frame within `frame`, a frame of at least one row, shows of the
/// session. Drawing changes nothing: the session is read only. What is shown
/// is the session as [`Session::settled_in`] gives it for this frame, so that
/// no selection and no scroll offset on screen is out of bounds; the
/// overlay, if there is one, stands in the middle of the frame.
pub fn ui(frame: Rect, app: &App) -> (screen: Screen)
    requires
        frame.height >= 1,
        app@.wf(),
    ensures
        match screen.body {
            Body::Log(log) => {
                &&& app@.commit_view is None
                &&& log.shows(app@.settled_in(frame), frame)
            },
            Body::Detail(detail) => {
                let panes = detail_panes(main_area(frame));
                &&& app@.commit_view is Some
                &&& detail.shows(app@.settled_in(frame), panes.message, panes.files, panes.content)
            },
        },
        match screen.popup {
            Some(pane) => app@.popup is Some && pane.shows(app@.popup.unwrap(), frame),
            None => app@.popup is None,
        },
{
    let body = match app.commit_view() {
        None => Body::Log(log_screen(frame, app)),
        Some(_) => {
            let panes = detail_areas(view_area(frame));
            Body::Detail(detail_screen(app, panes.message, panes.files, panes.content))
        },
    };
    let popup = match app.popup() {
        Some(lines) => Some(popup_pane(lines, frame)),
        None => None,
    };
    Screen { body, popup }
}

} // verus!
