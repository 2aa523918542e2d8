//! Scroll positions of lists, dialogs and text panes.

use vstd::prelude::*;

verus! {

/// Rows moved by one page of a pane `h` rows high: one row of overlap is
/// kept, and a page is never less than one row.
pub open spec fn page_rows(h: nat) -> nat {
    if h > 1 { (h - 1) as nat } else { 1 }
}

/// Rows moved by half a page (at least one).
pub open spec fn half_page_rows(h: nat) -> nat {
    if h / 2 > 0 { h / 2 } else { 1 }
}

/// Rows moved by one page of a pane `visible_height` rows high.
pub fn page_size(visible_height: usize) -> (r: usize)
    ensures
        r == page_rows(visible_height as nat),
{
    if visible_height > 1 { visible_height - 1 } else { 1 }
}

/// The smaller of two numbers.
pub open spec fn min_int(a: int, b: int) -> int {
    if a <= b { a } else { b }
}

/// The offset that shows rows `index..index + height` with the least
/// scrolling, not past the end; unchanged before the pane was measured.
pub open spec fn revealing(s: ScrollState, index: nat, height: nat) -> int {
    if s.visible_height == 0 {
        s.offset as int
    } else {
        min_int(
            if index < s.offset {
                index as int
            } else if index + height > s.offset + s.visible_height {
                index + height - s.visible_height
            } else {
                s.offset as int
            },
            s.max as int,
        )
    }
}

/// A scroll offset together with its bounds: the largest useful offset and
/// the number of rows on screen, both known from the last render.
#[derive(Clone, Copy, Debug, PartialEq, Eq)]
pub struct ScrollState {
    pub offset: usize,
    pub max: usize,
    pub visible_height: usize,
}

impl ScrollState {
    /// Scrolled to the top, with no known bounds yet.
    pub fn new() -> (s: ScrollState)
        ensures
            s.offset == 0 && s.max == 0 && s.visible_height == 0,
    {
        ScrollState { offset: 0, max: 0, visible_height: 0 }
    }

    /// One row back (up or left).
    pub fn step_back(&mut self)
        ensures
            final(self).offset == (if old(self).offset > 0 { old(self).offset - 1 } else { 0 }),
            final(self).max == old(self).max,
            final(self).visible_height == old(self).visible_height,
    {
        self.offset = self.offset.saturating_sub(1);
    }

    /// One row forward, not past the end.
    pub fn step_forward(&mut self)
        ensures
            final(self).offset == min_int(old(self).offset + 1, old(self).max as int),
            final(self).max == old(self).max,
            final(self).visible_height == old(self).visible_height,
    {
        self.offset = if self.offset < self.max { self.offset + 1 } else { self.max };
    }

    /// Moves back by `rows`, stopping at the top.
    pub fn back_by(&mut self, rows: usize)
        ensures
            final(self).offset == (if old(self).offset >= rows { old(self).offset - rows } else { 0 }),
            final(self).max == old(self).max,
            final(self).visible_height == old(self).visible_height,
    {
        self.offset = self.offset.saturating_sub(rows);
    }

    /// Moves forward by `rows`, stopping at the end.
    pub fn forward_by(&mut self, rows: usize)
        ensures
            final(self).offset == min_int(old(self).offset + rows, old(self).max as int),
            final(self).max == old(self).max,
            final(self).visible_height == old(self).visible_height,
    {
        self.offset = if rows < self.max && self.offset < self.max - rows { self.offset + rows } else { self.max };
    }

    /// One page back.
    pub fn page_back(&mut self)
        ensures
            final(self).offset == (if old(self).offset >= page_rows(old(self).visible_height as nat) {
                old(self).offset - page_rows(old(self).visible_height as nat)
            } else {
                0
            }),
            final(self).max == old(self).max,
            final(self).visible_height == old(self).visible_height,
    {
        let p = page_size(self.visible_height);
        self.back_by(p);
    }

    /// One page forward.
    pub fn page_forward(&mut self)
        ensures
            final(self).offset == min_int(old(self).offset + page_rows(old(self).visible_height as nat), old(self).max as int),
            final(self).max == old(self).max,
            final(self).visible_height == old(self).visible_height,
    {
        let p = page_size(self.visible_height);
        self.forward_by(p);
    }

    /// Half a page back.
    pub fn half_page_back(&mut self)
        ensures
            final(self).offset == (if old(self).offset >= half_page_rows(old(self).visible_height as nat) {
                old(self).offset - half_page_rows(old(self).visible_height as nat)
            } else {
                0
            }),
            final(self).max == old(self).max,
            final(self).visible_height == old(self).visible_height,
    {
        let h = if self.visible_height / 2 > 0 { self.visible_height / 2 } else { 1 };
        self.back_by(h);
    }

    /// Half a page forward.
    pub fn half_page_forward(&mut self)
        ensures
            final(self).offset == min_int(old(self).offset + half_page_rows(old(self).visible_height as nat), old(self).max as int),
            final(self).max == old(self).max,
            final(self).visible_height == old(self).visible_height,
    {
        let h = if self.visible_height / 2 > 0 { self.visible_height / 2 } else { 1 };
        self.forward_by(h);
    }

    /// To the top.
    pub fn to_start(&mut self)
        ensures
            final(self).offset == 0,
            final(self).max == old(self).max,
            final(self).visible_height == old(self).visible_height,
    {
        self.offset = 0;
    }

    /// To the end.
    pub fn to_end(&mut self)
        ensures
            final(self).offset == old(self).max,
            final(self).max == old(self).max,
            final(self).visible_height == old(self).visible_height,
    {
        self.offset = self.max;
    }

    /// Records the bounds measured by a render.
    pub fn set_bounds(&mut self, max: usize, visible_height: usize)
        ensures
            final(self).offset == old(self).offset,
            final(self).max == max,
            final(self).visible_height == visible_height,
    {
        self.max = max;
        self.visible_height = visible_height;
    }

    /// Pulls the offset back within the bounds.
    pub fn clamp_offset(&mut self)
        ensures
            final(self).offset == min_int(old(self).offset as int, old(self).max as int),
            final(self).max == old(self).max,
            final(self).visible_height == old(self).visible_height,
    {
        if self.offset > self.max {
            self.offset = self.max;
        }
    }

    /// Scrolls to `line`, not past the end.
    pub fn scroll_to(&mut self, line: usize)
        ensures
            final(self).offset == min_int(line as int, old(self).max as int),
            final(self).max == old(self).max,
            final(self).visible_height == old(self).visible_height,
    {
        self.offset = if line <= self.max { line } else { self.max };
    }

    /// Scrolls the least amount that shows rows `index..index + height`,
    /// then clamps; does nothing before the first render measured the pane.
    pub fn ensure_visible(&mut self, index: usize, height: usize)
        ensures
            final(self).max == old(self).max,
            final(self).visible_height == old(self).visible_height,
            final(self).offset == revealing(*old(self), index as nat, height as nat),
    {
        let vh = self.visible_height;
        if vh == 0 {
            return;
        }
        if index < self.offset {
            self.offset = index;
        } else if (index as u128) + (height as u128) > (self.offset as u128) + (vh as u128) {
            let end = (index as u128) + (height as u128) - (vh as u128);
            self.offset = if end <= self.max as u128 { end as usize } else { self.max };
        }
        self.clamp_offset();
    }
}

} // verus!
