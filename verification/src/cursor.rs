//! Selection cursors over lists whose length may be unknown or still growing.

use vstd::prelude::*;

verus! {

/// A selected index, if any, together with the index of the first visible row.
#[derive(Clone, Copy, Debug, PartialEq, Eq, Structural)]
pub struct ScrollCursor {
    pub selected: Option<usize>,
    pub offset: usize,
}

/// `value` kept within `low..=high`.
pub open spec fn clamped(value: int, low: int, high: int) -> int {
    if value < low {
        low
    } else if value > high {
        high
    } else {
        value
    }
}

/// `rows`, or the greatest number that a scroll offset can hold where it is
/// more.
pub open spec fn capped(rows: nat) -> int {
    if rows > u16::MAX {
        u16::MAX as int
    } else {
        rows as int
    }
}

/// A number of rows as a scroll offset can hold it: see [`capped`].
pub fn cap_rows(rows: usize) -> (held: u16)
    ensures
        held == capped(rows as nat),
{
    if rows > 65535 {
        65535
    } else {
        rows as u16
    }
}

/// The index that a move by `amount` reaches from `current`: an empty
/// selection goes to the first row, any other is shifted and kept within
/// `0..=max`, or within `0..=usize::MAX` where there is no `max`.
pub open spec fn moved(current: Option<usize>, amount: int, max: Option<usize>) -> int {
    match current {
        None => 0,
        Some(index) => match max {
            Some(m) => clamped(index + amount, 0, m as int),
            None => clamped(index + amount, 0, usize::MAX as int),
        },
    }
}

impl ScrollCursor {
    /// The cursor after a move by `amount` rows: see [`moved`].
    pub open spec fn scrolled(self, amount: int, max: Option<usize>) -> ScrollCursor {
        ScrollCursor {
            selected: Some(moved(self.selected, amount, max) as usize),
            offset: self.offset,
        }
    }

    /// A cursor with nothing selected, showing the list from its first row.
    pub fn new() -> (cursor: Self)
        ensures
            cursor == (ScrollCursor { selected: None, offset: 0 }),
    {
        ScrollCursor { selected: None, offset: 0 }
    }

    /// The selected index, if there is one.
    pub fn selected(&self) -> (index: Option<usize>)
        ensures
            index == self.selected,
    {
        self.selected
    }

    /// The index of the first visible row.
    pub fn offset(&self) -> (offset: usize)
        ensures
            offset == self.offset,
    {
        self.offset
    }

    /// Replaces the selection. Dropping the selection also returns the view to
    /// the first row.
    pub fn select(&mut self, index: Option<usize>)
        ensures
            final(self).selected == index,
            final(self).offset == (if index is None {
                0
            } else {
                old(self).offset
            }),
    {
        self.selected = index;
        if index.is_none() {
            self.offset = 0;
        }
    }

    /// Selects the first row.
    pub fn select_first(&mut self)
        ensures
            *final(self) == (ScrollCursor { selected: Some(0), offset: old(self).offset }),
    {
        self.select(Some(0));
    }
}

/// Moves the selection of `cursor` by `amount` rows and returns the index now
/// selected. With `max` the index stays within `0..=max`; without it only the
/// lower end is fixed, so that a list which is still growing can be followed
/// downwards. Whatever the size of `amount`, the index neither wraps nor
/// leaves that range.
pub fn scroll(cursor: &mut ScrollCursor, amount: i16, max: Option<usize>) -> (index: usize)
    ensures
        index == moved(old(cursor).selected, amount as int, max),
        *final(cursor) == old(cursor).scrolled(amount as int, max),
        max matches Some(m) ==> index <= m,
{
    let index: usize = match cursor.selected {
        None => 0,
        Some(current) => {
            let shifted: usize = if amount >= 0 {
                let up: usize = amount as usize;
                if current > usize::MAX - up {
                    usize::MAX
                } else {
                    current + up
                }
            } else {
                let down: usize = (-(amount as i32)) as usize;
                if current < down {
                    0
                } else {
                    current - down
                }
            };
            match max {
                None => shifted,
                Some(m) => if shifted > m {
                    m
                } else {
                    shifted
                },
            }
        },
    };
    cursor.select(Some(index));
    index
}

} // verus!
