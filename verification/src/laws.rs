//! What holds of the session as a whole: bounds of the cursors, growth of the
//! buffer of records, and what opening a record and paging through its files
//! lead to.

use vstd::prelude::*;
use crate::content::text_rows;
use crate::cursor::{clamped, moved, ScrollCursor};
use crate::layout::{detail_panes, main_area, Rect};
use crate::record::CommitInfo;
use crate::wrap::message_limit;
use crate::session::{
    scroll_limit, scrolled_to, Action, CommitView, Fetched, Key, LogMode, Session, Size,
};

verus! {

/// A move never leaves the range of the cursor, however large the amount: a
/// bounded cursor stays within `0..=max`, an unbounded one at or above zero
/// and within what an index can hold.
pub proof fn lemma_move_stays_in_range(current: Option<usize>, amount: int, max: Option<usize>)
    ensures
        0 <= moved(current, amount, max) <= usize::MAX,
        max matches Some(m) ==> moved(current, amount, max) <= m,
{
}

/// A move never wraps: from a row within the range, a move down ends at that
/// row or below it, and a move up at that row or above it.
pub proof fn lemma_move_never_wraps(from: usize, amount: int, max: Option<usize>)
    requires
        max matches Some(m) ==> from <= m,
    ensures
        amount >= 0 ==> moved(Some(from), amount, max) >= from,
        amount <= 0 ==> moved(Some(from), amount, max) <= from,
{
}

/// The content shown is never scrolled past the rows that do not fit into
/// its viewport, however large the amount: the offset that a move reaches is
/// the offset before it and the amount, kept between zero and the rows of
/// the content less the rows of the viewport. Only what an offset can hold
/// bounds it further.
pub proof fn lemma_scroll_offsets_stay_in_range(scroll: u16, amount: int, rows: nat, viewport: u16)
    ensures
        scrolled_to(scroll, amount, rows, viewport) == clamped(
            scroll + amount,
            0,
            scroll_limit(rows, viewport),
        ),
        0 <= scrolled_to(scroll, amount, rows, viewport) <= scroll_limit(rows, viewport),
        rows <= viewport ==> scroll_limit(rows, viewport) == 0,
        viewport < rows <= viewport + u16::MAX ==> scroll_limit(rows, viewport) == rows - viewport,
        rows > viewport + u16::MAX ==> scroll_limit(rows, viewport) == u16::MAX,
{
}

/// Settling the session for a frame changes no more than the index of the
/// list cursor, with the list open, or the two scroll offsets of the detail
/// view: records, density, overlay and decorations stay, and so do the
/// record that is open, its file cursor and the content shown. What is
/// settled is within bounds: the list cursor on a record that is held, the
/// message and the content within what their panes leave to scroll past.
/// Settling twice is settling once.
pub proof fn lemma_settling_keeps_the_rest(session: Session, frame: Rect)
    requires
        session.wf(),
    ensures
        ({
            let after = session.settled_in(frame);
            let panes = detail_panes(main_area(frame));
            &&& after.wf()
            &&& after.records == session.records
            &&& after.exhausted == session.exhausted
            &&& after.log_mode == session.log_mode
            &&& after.popup == session.popup
            &&& after.decorations == session.decorations
            &&& after.show_only == session.show_only
            &&& (after.commit_view is Some <==> session.commit_view is Some)
            &&& after.settled_in(frame) == after
            &&& match session.commit_view {
                None => {
                    &&& (after.log_state.offset == session.log_state.offset
                        || after.log_state.selected is None)
                    &&& (after.log_state.selected matches Some(index) ==> index
                        < session.records.len())
                    &&& (session.log_state.selected matches Some(index) ==> (index
                        < session.records.len() ==> after == session))
                },
                Some(view) => {
                    let shown = after.commit_view.unwrap();
                    &&& after.log_state == session.log_state
                    &&& shown.index == view.index
                    &&& shown.files_state == view.files_state
                    &&& (shown.file_view is Some <==> view.file_view is Some)
                    &&& shown.message_scroll <= view.message_scroll
                    &&& shown.message_scroll <= message_limit(
                        session.records[view.index as int].message@,
                        panes.message,
                    )
                    &&& (view.file_view matches Some(before) ==> {
                        &&& shown.file_view.unwrap().contents == before.contents
                        &&& shown.file_view.unwrap().scroll <= before.scroll
                        &&& shown.file_view.unwrap().scroll <= scroll_limit(
                            text_rows(before.contents).len(),
                            panes.content.height,
                        )
                    })
                },
            }
        }),
{
}

/// Scrolling the list down `times` times from row `from` selects row
/// `from + times`: the list cursor has no upper bound but what an index can
/// hold.
pub proof fn lemma_scroll_down_adds(session: Session, size: Size, from: usize, times: nat)
    requires
        session.popup is None,
        session.commit_view is None,
        session.log_state.selected == Some(from),
        from + times <= usize::MAX,
    ensures
        session.pressed(Key::Down, size, times) == session.with_cursor(
            ScrollCursor { selected: Some((from + times) as usize), offset: session.log_state.offset },
        ),
    decreases times,
{
    if times > 0 {
        let next = session.handled(Key::Down, size).0;
        assert(next == session.with_cursor(
            ScrollCursor { selected: Some((from + 1) as usize), offset: session.log_state.offset },
        ));
        lemma_scroll_down_adds(next, size, (from + 1) as usize, (times - 1) as nat);
    }
}

/// The answers of a provider that serves the records of `history` in order,
/// from record `served` on, and then says that it is exhausted.
pub open spec fn provider_answers(history: Seq<CommitInfo>, served: int) -> Seq<Fetched>
    decreases history.len() - served,
{
    if served < 0 || served >= history.len() {
        seq![Fetched::Exhausted]
    } else {
        seq![Fetched::Record(history[served])] + provider_answers(history, served + 1)
    }
}

/// Filling up to `target_len` records from a provider that serves `history`
/// brings the buffer to that many records, or to the whole history where
/// that is shorter. The buffer stays a prefix of the history, so it never
/// holds more than the history does; it never shrinks; and reaching the end
/// of the history raises no overlay.
pub proof fn lemma_fill_reaches_target(
    session: Session,
    history: Seq<CommitInfo>,
    target_len: usize,
)
    requires
        session.records.len() <= history.len(),
        session.records == history.take(session.records.len() as int),
        session.exhausted ==> session.records.len() == history.len(),
    ensures
        ({
            let held = session.records.len() as int;
            let wanted = if target_len > held {
                target_len as int
            } else {
                held
            };
            let reached = if wanted < history.len() {
                wanted
            } else {
                history.len() as int
            };
            let after = session.answered(provider_answers(history, held), target_len);
            &&& after.records == history.take(reached)
            &&& after.exhausted ==> after.records.len() == history.len()
            &&& after == (Session {
                records: after.records,
                exhausted: after.exhausted,
                ..session
            })
        }),
    decreases history.len() - session.records.len(),
{
    let held = session.records.len() as int;
    let answers = provider_answers(history, held);
    if !session.wants_record(target_len) {
    } else if held == history.len() {
    } else {
        let next = session.fetched(Fetched::Record(history[held]));
        assert(next.records =~= history.take(held + 1));
        assert(answers[0] == Fetched::Record(history[held]));
        assert(answers.drop_first() =~= provider_answers(history, held + 1));
        lemma_fill_reaches_target(next, history, target_len);
    }
}

/// With the list open and its cursor `offset` rows down, a frame of a
/// terminal of `size` needs half the terminal's rows and `offset` more; so
/// filling for that frame from a provider that serves `history` brings the
/// buffer to that many records or to the whole history, whichever is less,
/// once fewer are held.
pub proof fn lemma_fill_follows_cursor(
    session: Session,
    history: Seq<CommitInfo>,
    size: Size,
    offset: usize,
)
    requires
        !session.show_only,
        session.log_state.selected == Some(offset),
        size.height / 2 + offset <= usize::MAX,
        session.records.len() <= size.height / 2 + offset,
        session.records.len() <= history.len(),
        session.records == history.take(session.records.len() as int),
        session.exhausted ==> session.records.len() == history.len(),
    ensures
        session.needed(size) == size.height / 2 + offset,
        session.answered(
            provider_answers(history, session.records.len() as int),
            session.needed(size),
        ).records == history.take(
            if size.height / 2 + offset < history.len() {
                size.height / 2 + offset
            } else {
                history.len() as int
            },
        ),
{
    lemma_fill_reaches_target(session, history, session.needed(size));
}

/// Choosing a density changes nothing but the density: the list cursor keeps
/// its index, and choosing the same density again changes nothing at all.
pub proof fn lemma_density_keeps_cursor(session: Session, size: Size, key: Key)
    requires
        session.popup is None,
        session.commit_view is None,
        key == Key::Char('1') || key == Key::Char('2') || key == Key::Char('3'),
    ensures
        ({
            let mode = if key == Key::Char('1') {
                LogMode::Short
            } else if key == Key::Char('2') {
                LogMode::Medium
            } else {
                LogMode::Long
            };
            let after = session.handled(key, size).0;
            &&& after == session.with_mode(mode)
            &&& after.log_state == session.log_state
            &&& after.handled(key, size).0 == after
            &&& session.handled(key, size).1 == Action::Continue
        }),
{
}

/// Opening a record without file changes gives a detail view that shows no
/// content and has no file selected, and asks for none to be rendered.
pub proof fn lemma_open_without_files(session: Session, size: Size, index: usize)
    requires
        session.popup is None,
        session.commit_view is None,
        session.log_state.selected == Some(index),
        index < session.records.len(),
        session.records[index as int].files@.len() == 0,
    ensures
        session.handled(Key::Enter, size) == session.opened(index),
        session.opened(index).1 == Action::Continue,
        session.opened(index).0.commit_view == Some(
            CommitView {
                index,
                message_scroll: 0,
                files_state: ScrollCursor { selected: None, offset: 0 },
                file_view: None,
            },
        ),
{
}

/// With file `from` of a record's `count` files selected, `times` presses of
/// the key for the next file select file `from + times`, or the last file
/// where there are not so many: the cursor neither passes the last file nor
/// wraps to the first.
pub proof fn lemma_next_file_clamps(session: Session, size: Size, times: nat)
    requires
        session.wf(),
        session.popup is None,
        session.commit_view is Some,
        session.commit_view.unwrap().files_state.selected is Some,
    ensures
        ({
            let view = session.commit_view.unwrap();
            let count = session.records[view.index as int].files@.len();
            let from = view.files_state.selected.unwrap();
            let after = session.pressed(Key::Char('n'), size, times);
            &&& after.wf()
            &&& after.popup is None
            &&& after.records == session.records
            &&& after.commit_view is Some
            &&& after.commit_view.unwrap().index == view.index
            &&& after.commit_view.unwrap().files_state.selected == Some(
                if from + times < count {
                    (from + times) as usize
                } else {
                    (count - 1) as usize
                },
            )
        }),
    decreases times,
{
    let view = session.commit_view.unwrap();
    let files = session.records[view.index as int].files;
    assert(files@.len() == files.len());
    if times > 0 {
        let next = session.handled(Key::Char('n'), size).0;
        lemma_next_file_clamps(next, size, (times - 1) as nat);
    }
}

/// Opening a record with `count` files, `count` at least one, and pressing
/// the key for the next file `count` times ends on the last file.
pub proof fn lemma_paging_ends_on_last_file(session: Session, size: Size, index: usize)
    requires
        session.popup is None,
        index < session.records.len(),
        session.records[index as int].files@.len() > 0,
    ensures
        ({
            let count = session.records[index as int].files@.len();
            let after = session.opened(index).0.pressed(Key::Char('n'), size, count);
            after.commit_view is Some && after.commit_view.unwrap().files_state.selected == Some(
                (count - 1) as usize,
            )
        }),
{
    let count = session.records[index as int].files@.len();
    lemma_next_file_clamps(session.opened(index).0, size, count);
}

/// The buffer of records only grows, and by what the provider hands over:
/// an answer appends its record or leaves the records as they are, and no
/// key press changes them or makes the session forget that the provider is
/// exhausted.
pub proof fn lemma_buffer_only_grows(session: Session, answer: Fetched, key: Key, size: Size)
    ensures
        session.fetched(answer).records == (match answer {
            Fetched::Record(record) => session.records.push(record),
            _ => session.records,
        }),
        session.exhausted ==> session.fetched(answer).exhausted,
        session.handled(key, size).0.records == session.records,
        session.handled(key, size).0.exhausted == session.exhausted,
        session.settled().records == session.records,
{
}

/// Once the provider has said that it is exhausted, it is not asked again:
/// filling changes nothing, whatever the provider would answer.
pub proof fn lemma_exhausted_asks_no_more(
    session: Session,
    answers: Seq<Fetched>,
    target_len: usize,
)
    requires
        session.exhausted,
    ensures
        !session.wants_record(target_len),
        session.answered(answers, target_len) == session,
{
}

/// While an overlay is shown, a key press, whatever the key and whatever
/// view is open below, takes the overlay away and does nothing else.
pub proof fn lemma_overlay_takes_one_key(session: Session, key: Key, size: Size)
    requires
        session.popup is Some,
    ensures
        session.handled(key, size).0 == (Session { popup: None, ..session }),
        session.handled(key, size).1 == Action::Continue,
{
}

/// A failure of the provider leaves the records as they are and shows its
/// message; the next key press, whatever the key, takes the overlay away and
/// changes nothing else.
pub proof fn lemma_failure_is_shown_once(
    session: Session,
    message: String,
    key: Key,
    size: Size,
)
    ensures
        ({
            let failed = session.fetched(Fetched::Failed(message));
            &&& failed.records == session.records
            &&& failed.popup == Some(crate::content::message_lines(message@))
            &&& failed.handled(key, size).0 == (Session { popup: None, ..session })
            &&& failed.handled(key, size).1 == Action::Continue
        }),
{
}

/// Whatever the provider answers and whatever is drawn or loaded, the
/// session stays well formed.
pub proof fn lemma_steps_keep_wf(
    session: Session,
    answer: Fetched,
    limit: u16,
    offset: usize,
    record: usize,
    file: usize,
    contents: ratatui::text::Text<'static>,
)
    requires
        session.wf(),
    ensures
        session.fetched(answer).wf(),
        session.single_opened().0.wf(),
        session.settled().wf(),
        session.message_clamped(limit).wf(),
        session.with_offset(offset).wf(),
        session.file_shown(record, file, contents).wf(),
{
}

} // verus!
