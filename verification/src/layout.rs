//! Areas of the terminal and the state of the lists drawn in them.

use vstd::prelude::*;

verus! {

/// An area of terminal cells.
#[derive(Debug, Clone, Copy, PartialEq, Eq, Structural)]
pub struct Rect {
    pub x: u16,
    pub y: u16,
    pub width: u16,
    pub height: u16,
}

/// The end of a range of `len` cells that starts at `start`: the last column or row of a terminal
/// lies in no range that would reach past it.
pub open spec fn range_end(start: u16, len: u16) -> int {
    if start + len <= u16::MAX {
        start + len
    } else {
        u16::MAX as int
    }
}

impl Rect {
    /// Whether the cell at `column` and `row` lies in the area.
    pub open spec fn holds(self, column: u16, row: u16) -> bool {
        &&& self.x <= column < range_end(self.x, self.width)
        &&& self.y <= row < range_end(self.y, self.height)
    }

    /// Whether the cell at `column` and `row` lies in the area.
    pub fn contains(&self, column: u16, row: u16) -> (r: bool)
        ensures
            r == self.holds(column, row),
    {
        column >= self.x && column < self.x.saturating_add(self.width) && row >= self.y && row
            < self.y.saturating_add(self.height)
    }
}

impl Default for Rect {
    fn default() -> (r: Rect)
        ensures
            r == (Rect { x: 0, y: 0, width: 0, height: 0 }),
    {
        Rect { x: 0, y: 0, width: 0, height: 0 }
    }
}

/// The state of a list: the first item in view and the item that is selected.
#[derive(Debug, Clone, Copy, PartialEq, Eq, Structural)]
pub struct ListState {
    pub offset: usize,
    pub selected: Option<usize>,
}

/// The state of a table, by its rows.
pub type TableState = ListState;

/// A list with nothing selected, from its start.
pub open spec fn fresh_list() -> ListState {
    ListState { offset: 0, selected: None }
}

impl Default for ListState {
    fn default() -> (r: ListState)
        ensures
            r == fresh_list(),
    {
        ListState { offset: 0, selected: None }
    }
}

impl ListState {
    /// The list with the item `i` selected.
    pub open spec fn selecting(self, i: usize) -> ListState {
        ListState { offset: self.offset, selected: Some(i) }
    }

    /// Selects an item. Taking the selection away goes back to the start of the list.
    pub fn select(&mut self, index: Option<usize>)
        ensures
            final(self).selected == index,
            final(self).offset == (if index is None { 0 } else { old(self).offset }),
    {
        self.selected = index;
        if index.is_none() {
            self.offset = 0;
        }
    }

    /// The list after a click on the row `row` of the area `rect`, in which it shows `len` items.
    pub open spec fn clicked(self, rect: Rect, column: u16, row: u16, len: usize) -> ListState {
        if rect.holds(column, row) && len > 0 {
            let hit = self.offset + (row - rect.y);
            let index = if hit < len { hit } else { len - 1 };
            ListState {
                offset: if index < self.offset { index as usize } else { self.offset },
                selected: Some(index as usize),
            }
        } else {
            self
        }
    }

    /// Selects the item that a click on the area `rect` hits, or the last one where the click is
    /// below it, and brings it into view. `len` is the number of items in the list.
    pub fn click(&mut self, rect: Rect, column: u16, row: u16, len: usize)
        ensures
            *final(self) == old(self).clicked(rect, column, row, len),
    {
        if !rect.contains(column, row) {
            return;
        }
        if len == 0 || rect.height == 0 {
            return;
        }
        let relative: usize = row.saturating_sub(rect.y) as usize;
        let height: usize = rect.height as usize;
        if relative >= height {
            return;
        }
        let mut index: usize = self.offset.saturating_add(relative);
        if index >= len {
            index = len - 1;
        }
        let mut new_offset: usize = self.offset;
        if index < new_offset {
            new_offset = index;
        } else if height > 0 && index - new_offset >= height {
            new_offset = index + 1 - height;
        }
        self.select(Some(index));
        self.offset = new_offset;
    }
}

/// A click on a list selects an item of it that is in view afterwards, and never scrolls down.
pub proof fn law_click_selects_visible_item(
    list: ListState,
    rect: Rect,
    column: u16,
    row: u16,
    len: usize,
)
    requires
        rect.holds(column, row),
        len > 0,
    ensures
        ({
            let after = list.clicked(rect, column, row, len);
            &&& after.selected matches Some(i) && i < len && after.offset <= i < after.offset
                + rect.height
            &&& after.offset <= list.offset
        }),
{
}

/// A click on a row that shows an item selects that item and scrolls nothing.
pub proof fn law_click_selects_item_under_cursor(
    list: ListState,
    rect: Rect,
    column: u16,
    row: u16,
    len: usize,
)
    requires
        rect.holds(column, row),
        list.offset + (row - rect.y) < len,
    ensures
        list.clicked(rect, column, row, len) == (ListState {
            offset: list.offset,
            selected: Some((list.offset + (row - rect.y)) as usize),
        }),
{
}

/// Clicking the same row again changes nothing while the list keeps its length.
pub proof fn law_click_twice(list: ListState, rect: Rect, column: u16, row: u16, len: usize)
    ensures
        list.clicked(rect, column, row, len).clicked(rect, column, row, len) == list.clicked(
            rect,
            column,
            row,
            len,
        ),
{
}

/// How the interface is laid out.
#[derive(Debug, Clone, Copy, PartialEq, Eq, Structural)]
pub enum Orientation {
    Vertical,
    Horizontal,
}

} // verus!
