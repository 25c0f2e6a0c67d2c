//! Rectangles of terminal cells and how the screen is divided into them.

use vstd::prelude::*;
use ratatui::layout::{Constraint, Layout};

verus! {

/// A rectangle of terminal cells.
#[derive(Clone, Copy, Debug, PartialEq, Eq, Structural)]
pub struct Rect {
    pub x: u16,
    pub y: u16,
    pub width: u16,
    pub height: u16,
}

/// The axis along which an area is divided.
#[derive(Clone, Copy, Debug, PartialEq, Eq, Structural)]
pub enum Direction {
    Horizontal,
    Vertical,
}

/// `length`, cut so that a stretch of it from `start` ends within what a
/// coordinate can hold.
pub open spec fn fitting(start: u16, length: u16) -> u16 {
    if start + length > u16::MAX {
        (u16::MAX - start) as u16
    } else {
        length
    }
}

impl Rect {
    /// The rectangle at `x`, `y` of the given size, cut at the right and at
    /// the bottom where it would pass the last coordinate.
    pub open spec fn sized(x: u16, y: u16, width: u16, height: u16) -> Rect {
        Rect { x, y, width: fitting(x, width), height: fitting(y, height) }
    }

    /// The rectangle inside `self` that leaves `horizontal` cells free at the
    /// left and at the right and `vertical` cells at the top and at the bottom;
    /// the empty rectangle at the origin where `self` is too small for that.
    pub open spec fn shrunk(self, horizontal: u16, vertical: u16) -> Rect {
        let across = if 2 * horizontal > u16::MAX {
            u16::MAX as int
        } else {
            2 * horizontal
        };
        let down = if 2 * vertical > u16::MAX {
            u16::MAX as int
        } else {
            2 * vertical
        };
        if self.width < across || self.height < down {
            Rect { x: 0, y: 0, width: 0, height: 0 }
        } else {
            Rect {
                x: if self.x + horizontal > u16::MAX {
                    u16::MAX
                } else {
                    (self.x + horizontal) as u16
                },
                y: if self.y + vertical > u16::MAX {
                    u16::MAX
                } else {
                    (self.y + vertical) as u16
                },
                width: (self.width - across) as u16,
                height: (self.height - down) as u16,
            }
        }
    }

    /// Whether `self` lies within `outer`.
    pub open spec fn within(self, outer: Rect) -> bool {
        &&& outer.x <= self.x
        &&& self.x + self.width <= outer.x + outer.width
        &&& outer.y <= self.y
        &&& self.y + self.height <= outer.y + outer.height
    }

    /// The rectangle at `x`, `y` of the given size: see [`Rect::sized`].
    pub fn new(x: u16, y: u16, width: u16, height: u16) -> (rect: Rect)
        ensures
            rect == Rect::sized(x, y, width, height),
    {
        Rect {
            x,
            y,
            width: x.saturating_add(width) - x,
            height: y.saturating_add(height) - y,
        }
    }

    /// The rectangle inside `self` with the given margins: see
    /// [`Rect::shrunk`].
    pub fn inner(self, horizontal: u16, vertical: u16) -> (rect: Rect)
        ensures
            rect == self.shrunk(horizontal, vertical),
    {
        let across: u16 = if horizontal > u16::MAX / 2 {
            u16::MAX
        } else {
            2 * horizontal
        };
        let down: u16 = if vertical > u16::MAX / 2 {
            u16::MAX
        } else {
            2 * vertical
        };
        if self.width < across || self.height < down {
            Rect { x: 0, y: 0, width: 0, height: 0 }
        } else {
            Rect {
                x: self.x.saturating_add(horizontal),
                y: self.y.saturating_add(vertical),
                width: self.width - across,
                height: self.height - down,
            }
        }
    }
}

/// The sum of `shares`.
pub open spec fn shares_total(shares: Seq<u16>) -> int
    decreases shares.len(),
{
    if shares.len() == 0 {
        0
    } else {
        shares_total(shares.drop_last()) + shares.last()
    }
}

/// Where `r` starts along `direction`.
pub open spec fn start_along(direction: Direction, r: Rect) -> int {
    match direction {
        Direction::Horizontal => r.x as int,
        Direction::Vertical => r.y as int,
    }
}

/// How far `r` reaches along `direction`.
pub open spec fn length_along(direction: Direction, r: Rect) -> int {
    match direction {
        Direction::Horizontal => r.width as int,
        Direction::Vertical => r.height as int,
    }
}

/// How far `area` reaches along `direction` within what a coordinate can
/// hold: the length that is divided.
pub open spec fn divided_length(direction: Direction, area: Rect) -> int {
    match direction {
        Direction::Horizontal => fitting(area.x, area.width) as int,
        Direction::Vertical => fitting(area.y, area.height) as int,
    }
}

/// The parts into which the layout engine divides `area` along `direction`
/// for `shares`, percentages that sum to a hundred at most, in order.
pub uninterp spec fn layout_parts(direction: Direction, shares: Seq<u16>, area: Rect) -> Seq<Rect>;

/// What holds of the parts into which an area is divided: there is one for
/// each share, each spans the area across the axis of division, and each
/// lies within the area along it.
pub open spec fn divides(parts: Seq<Rect>, direction: Direction, shares: int, area: Rect) -> bool {
    &&& parts.len() == shares
    &&& forall|i: int|
        0 <= i < parts.len() ==> match direction {
            Direction::Horizontal => {
                &&& (#[trigger] parts[i]).y == area.y
                &&& parts[i].height == area.height
                &&& area.x <= parts[i].x
                &&& parts[i].x + parts[i].width <= area.x + area.width
            },
            Direction::Vertical => {
                &&& parts[i].x == area.x
                &&& parts[i].width == area.width
                &&& area.y <= parts[i].y
                &&& parts[i].y + parts[i].height <= area.y + area.height
            },
        }
}

/// Where the parts of a division stand along its axis: the first starts
/// where the area starts, each other where the one before it ends, and each
/// ends within half a cell of where the shares up to it, taken of the divided
/// length, put its end.
pub open spec fn placed(parts: Seq<Rect>, direction: Direction, shares: Seq<u16>, area: Rect) -> bool {
    &&& parts.len() == shares.len()
    &&& forall|i: int|
        0 <= i < parts.len() ==> start_along(direction, #[trigger] parts[i]) == (if i == 0 {
            start_along(direction, area)
        } else {
            start_along(direction, parts[i - 1]) + length_along(direction, parts[i - 1])
        })
    &&& forall|i: int|
        0 <= i < parts.len() ==> ends_near(
            #[trigger] parts[i],
            direction,
            shares_total(shares.take(i + 1)),
            area,
        )
}

/// Whether `part` ends within half a cell of `share` hundredths of the
/// length of `area` that is divided.
pub open spec fn ends_near(part: Rect, direction: Direction, share: int, area: Rect) -> bool {
    let end = 100 * (start_along(direction, part) + length_along(direction, part) - start_along(
        direction,
        area,
    ));
    let due = share * divided_length(direction, area);
    due - 50 <= end <= due + 50
}

/// `Layout::split` of a layout with its default settings and one percentage
/// for each part, the percentages summing to a hundred at most: the parts of
/// `area` along `direction`, in order.
///
/// The engine keeps every part within the area without exception
/// ([`divides`]). It takes the first part to start where the area starts,
/// the parts to follow one another without a gap, and each to have its
/// percentage of the divided length; these it weighs far above what else it
/// asks for, and with percentages that sum to a hundred at most all of them
/// can be met at once. So they are met, the solution is the only one, and
/// the result is settled by the arguments ([`layout_parts`]). Each boundary
/// is rounded to a whole cell, a half upwards, so that it stands within
/// half a cell of where the shares put it ([`placed`]).
#[verifier::external_body]
pub(crate) fn split(direction: Direction, percentages: &Vec<u16>, area: Rect) -> (parts: Vec<Rect>)
    requires
        shares_total(percentages@) <= 100,
    ensures
        parts@ == layout_parts(direction, percentages@, area),
        divides(parts@, direction, percentages@.len() as int, area),
        placed(parts@, direction, percentages@, area),
{
    let way = match direction {
        Direction::Horizontal => ratatui::layout::Direction::Horizontal,
        Direction::Vertical => ratatui::layout::Direction::Vertical,
    };
    let whole =
        ratatui::layout::Rect { x: area.x, y: area.y, width: area.width, height: area.height };
    let shares = Constraint::from_percentages(percentages.iter().copied());
    let parts = Layout::default().direction(way).constraints(shares).split(whole);
    parts.iter().map(|r| Rect { x: r.x, y: r.y, width: r.width, height: r.height }).collect()
}

/// The totals of two and of three shares and of what stands before each.
pub proof fn lemma_shares_totals(shares: Seq<u16>)
    requires
        2 <= shares.len() <= 3,
    ensures
        shares_total(shares.take(1)) == shares[0],
        shares_total(shares.take(2)) == shares[0] + shares[1],
        shares.len() == 3 ==> shares_total(shares.take(3)) == shares[0] + shares[1] + shares[2],
        shares_total(shares) == shares_total(shares.take(shares.len() as int)),
{
    reveal_with_fuel(shares_total, 4);
    assert(shares.take(1).drop_last() =~= Seq::<u16>::empty());
    assert(shares.take(2).drop_last() =~= shares.take(1));
    assert(shares.take(shares.len() as int) =~= shares);
    if shares.len() == 3 {
        assert(shares.take(3).drop_last() =~= shares.take(2));
    }
}

/// The three shares of a division that gives its middle part `percent`
/// hundredths and each side half of the rest.
pub open spec fn centered_shares(percent: u16) -> Seq<u16> {
    seq![((100 - percent) / 2) as u16, percent, ((100 - percent) / 2) as u16]
}

/// The shares handed to the layout engine for a part of `percent`
/// hundredths in the middle: see [`centered_shares`].
pub fn shares_around(percent: u16) -> (shares: Vec<u16>)
    requires
        percent <= 100,
    ensures
        shares@ == centered_shares(percent),
{
    let side: u16 = (100 - percent) / 2;
    let mut shares: Vec<u16> = Vec::new();
    shares.push(side);
    shares.push(percent);
    shares.push(side);
    assert(shares@ =~= centered_shares(percent));
    shares
}

/// The two equal shares of a division in halves.
pub open spec fn halves() -> Seq<u16> {
    seq![50u16, 50u16]
}

/// The halves into which the layout engine divides `area` along
/// `direction`.
pub open spec fn halves_of(direction: Direction, area: Rect) -> (Rect, Rect) {
    (layout_parts(direction, halves(), area)[0], layout_parts(direction, halves(), area)[1])
}

/// What holds of the halves of `area` along `direction`, whatever its size:
/// both span the area across the axis; the first starts where the area
/// starts and ends within half a cell of the middle of the divided length;
/// the second starts there and ends where that length ends.
pub open spec fn halved(parts: (Rect, Rect), direction: Direction, area: Rect) -> bool {
    let length = divided_length(direction, area);
    &&& divides(seq![parts.0, parts.1], direction, 2, area)
    &&& start_along(direction, parts.0) == start_along(direction, area)
    &&& start_along(direction, parts.1) == start_along(direction, parts.0) + length_along(
        direction,
        parts.0,
    )
    &&& length_along(direction, parts.0) + length_along(direction, parts.1) == length
    &&& length - 1 <= 2 * length_along(direction, parts.0) <= length + 1
}

/// The parts of `area` divided in halves along `direction`: the halves that
/// the layout engine gives, which are as [`halved`] says.
pub fn split_in_halves(direction: Direction, area: Rect) -> (parts: (Rect, Rect))
    ensures
        parts == halves_of(direction, area),
        halved(parts, direction, area),
{
    let mut shares: Vec<u16> = Vec::new();
    shares.push(50);
    shares.push(50);
    assert(shares@ =~= halves());
    proof {
        lemma_shares_totals(shares@);
    }
    let parts = split(direction, &shares, area);
    proof {
        let length = divided_length(direction, area);
        assert(seq![parts@[0], parts@[1]] =~= parts@);
        assert(ends_near(parts@[0], direction, 50, area));
        assert(ends_near(parts@[1], direction, 100, area));
        assert(start_along(direction, parts@[1]) == start_along(direction, parts@[0])
            + length_along(direction, parts@[0]));
    }
    (parts[0], parts[1])
}

/// The part in the middle of `r` for the shares of [`centered_shares`]: the
/// second of the three columns of the second of the three rows into which
/// the layout engine divides `r`.
pub open spec fn centered(percent_x: u16, percent_y: u16, r: Rect) -> Rect {
    layout_parts(
        Direction::Horizontal,
        centered_shares(percent_x),
        layout_parts(Direction::Vertical, centered_shares(percent_y), r)[1],
    )[1]
}

/// Whether `middle` stands in the middle of `r` along `direction` with
/// `percent` hundredths of its length: it starts within half a cell of where
/// half of the other hundredths end, and ends within half a cell of where
/// `percent` more end. So its length is `percent` hundredths of the length
/// of `r` but for one cell at most, and what is left free after it is what
/// is left free before it, and one hundredth more where `percent` is odd,
/// but for one cell at most.
pub open spec fn in_the_middle(middle: Rect, direction: Direction, percent: u16, r: Rect) -> bool {
    let side = (100 - percent) / 2;
    let length = divided_length(direction, r);
    let before = 100 * (start_along(direction, middle) - start_along(direction, r));
    let end = before + 100 * length_along(direction, middle);
    &&& side * length - 50 <= before <= side * length + 50
    &&& (side + percent) * length - 50 <= end <= (side + percent) * length + 50
}

/// The part in the middle of `r` that takes `percent_x` hundredths of its
/// width and `percent_y` hundredths of its height, each but for the
/// rounding to whole cells: the part that the layout engine gives
/// ([`centered`]), which lies within `r` and in its middle both ways.
pub fn centered_rect(percent_x: u16, percent_y: u16, r: Rect) -> (middle: Rect)
    requires
        percent_x <= 100,
        percent_y <= 100,
    ensures
        middle == centered(percent_x, percent_y, r),
        middle.within(r),
        in_the_middle(middle, Direction::Horizontal, percent_x, r),
        in_the_middle(middle, Direction::Vertical, percent_y, r),
{
    let down = shares_around(percent_y);
    proof {
        lemma_shares_totals(down@);
    }
    let rows = split(Direction::Vertical, &down, r);
    let row = rows[1];
    let across = shares_around(percent_x);
    proof {
        lemma_shares_totals(across@);
    }
    let columns = split(Direction::Horizontal, &across, row);
    let middle = columns[1];
    proof {
        let side_y = (100 - percent_y) / 2;
        let side_x = (100 - percent_x) / 2;
        assert(ends_near(rows@[0], Direction::Vertical, side_y as int, r));
        assert(ends_near(rows@[1], Direction::Vertical, side_y + percent_y, r));
        assert(start_along(Direction::Vertical, rows@[1]) == start_along(
            Direction::Vertical,
            rows@[0],
        ) + length_along(Direction::Vertical, rows@[0]));
        assert(ends_near(columns@[0], Direction::Horizontal, side_x as int, row));
        assert(ends_near(columns@[1], Direction::Horizontal, side_x + percent_x, row));
        assert(start_along(Direction::Horizontal, columns@[1]) == start_along(
            Direction::Horizontal,
            columns@[0],
        ) + length_along(Direction::Horizontal, columns@[0]));
        assert(divided_length(Direction::Horizontal, row) == divided_length(
            Direction::Horizontal,
            r,
        ));
    }
    middle
}

/// The area of the view that is open: the frame without its last row.
pub open spec fn main_area(frame: Rect) -> Rect {
    Rect::sized(
        frame.x,
        frame.y,
        frame.width,
        if frame.height == 0 {
            0
        } else {
            (frame.height - 1) as u16
        },
    )
}

/// The area of the view that is open within `frame`: see [`main_area`].
pub fn view_area(frame: Rect) -> (area: Rect)
    ensures
        area == main_area(frame),
{
    Rect::new(frame.x, frame.y, frame.width, frame.height.saturating_sub(1))
}

/// The axis along which the detail view is divided into the record and the
/// content of a file: side by side where the area is more than twice as wide
/// as it is high, one above the other otherwise.
pub open spec fn detail_direction(area: Rect) -> Direction {
    if area.width / 2 > area.height {
        Direction::Horizontal
    } else {
        Direction::Vertical
    }
}

/// The three panes of the detail view.
#[derive(Clone, Copy, Debug, PartialEq, Eq, Structural)]
pub struct DetailPanes {
    pub message: Rect,
    pub files: Rect,
    pub content: Rect,
}

/// The panes into which the detail view divides `area`: halves along
/// [`detail_direction`], the second for the content; the first again in
/// halves, the message above the files.
pub open spec fn detail_panes(area: Rect) -> DetailPanes {
    let (record, content) = halves_of(detail_direction(area), area);
    let (message, files) = halves_of(Direction::Vertical, record);
    DetailPanes { message, files, content }
}

/// What holds of the panes of the detail view in `area`, whatever the size
/// of `area`: the record and the content are its halves along
/// [`detail_direction`], and the message and the files are the halves of
/// the record's half, one above the other.
pub open spec fn detail_halved(panes: DetailPanes, area: Rect) -> bool {
    exists|record: Rect|
        #![trigger halved((record, panes.content), detail_direction(area), area)]
        halved((record, panes.content), detail_direction(area), area) && halved(
            (panes.message, panes.files),
            Direction::Vertical,
            record,
        )
}

/// The panes of the detail view in `area`: see [`detail_panes`].
pub fn detail_areas(area: Rect) -> (panes: DetailPanes)
    ensures
        panes == detail_panes(area),
        detail_halved(panes, area),
{
    let direction = if area.width / 2 > area.height {
        Direction::Horizontal
    } else {
        Direction::Vertical
    };
    let (record, content) = split_in_halves(direction, area);
    let (message, files) = split_in_halves(Direction::Vertical, record);
    let panes = DetailPanes { message, files, content };
    assert(halved((record, panes.content), detail_direction(area), area));
    panes
}

} // verus!
