//! Cursors over ordered sequences: a list with an optional selection and a
//! ring of tabs with a current index. Both wrap around at either end.

use vstd::prelude::*;

verus! {

/// Position after one step forward on a ring of `len` places: `(i + 1) mod len`
/// for a position inside the ring; a position outside it lands on 0. An empty
/// ring leaves the position alone.
pub open spec fn ring_next(i: usize, len: usize) -> usize {
    if len == 0 {
        i
    } else if i + 1 >= len {
        0
    } else {
        (i + 1) as usize
    }
}

/// Position after one step backward on a ring of `len` places: `i - 1`, or
/// `len - 1` from position 0 (and from any position outside the ring). An
/// empty ring leaves the position alone.
pub open spec fn ring_previous(i: usize, len: usize) -> usize {
    if len == 0 {
        i
    } else if i == 0 || i >= len {
        (len - 1) as usize
    } else {
        (i - 1) as usize
    }
}

/// Position after `steps` steps forward on a ring of `len` places.
pub open spec fn ring_next_times(i: usize, len: usize, steps: nat) -> usize
    decreases steps,
{
    if steps == 0 {
        i
    } else {
        ring_next_times(ring_next(i, len), len, (steps - 1) as nat)
    }
}

/// Cursor of a list of `len` items after one step forward: an unset cursor
/// selects the first item. On an empty list nothing changes.
pub open spec fn cursor_next(cursor: Option<usize>, len: usize) -> Option<usize> {
    if len == 0 {
        cursor
    } else {
        match cursor {
            Some(i) => Some(ring_next(i, len)),
            None => Some(0),
        }
    }
}

/// Cursor of a list of `len` items after one step backward: an unset cursor
/// selects the first item. On an empty list nothing changes.
pub open spec fn cursor_previous(cursor: Option<usize>, len: usize) -> Option<usize> {
    if len == 0 {
        cursor
    } else {
        match cursor {
            Some(i) => Some(ring_previous(i, len)),
            None => Some(0),
        }
    }
}

/// Whether a cursor is unset or points at one of `len` items.
pub open spec fn cursor_in_range(cursor: Option<usize>, len: usize) -> bool {
    match cursor {
        Some(i) => i < len,
        None => true,
    }
}

/// One step of a cursor.
pub enum CursorMove {
    Next,
    Previous,
}

/// Cursor after the moves of `moves`, taken first to last.
pub open spec fn cursor_after(cursor: Option<usize>, len: usize, moves: Seq<CursorMove>) -> Option<
    usize,
>
    decreases moves.len(),
{
    if moves.len() == 0 {
        cursor
    } else {
        let before = cursor_after(cursor, len, moves.drop_last());
        match moves.last() {
            CursorMove::Next => cursor_next(before, len),
            CursorMove::Previous => cursor_previous(before, len),
        }
    }
}

/// The labels of a tab bar and the index of the tab that is shown.
pub struct TabsState<'a> {
    pub titles: Vec<&'a str>,
    pub index: usize,
}

impl<'a> TabsState<'a> {
    /// The current index points at one of the labels.
    pub open spec fn wf(&self) -> bool {
        self.index < self.titles@.len()
    }

    /// A tab bar that shows its first tab.
    pub fn new(titles: Vec<&'a str>) -> (tabs: TabsState<'a>)
        ensures
            tabs.titles == titles,
            tabs.index == 0,
            titles@.len() > 0 ==> tabs.wf(),
    {
        TabsState { titles, index: 0 }
    }

    /// Shows the tab to the right, or the first one after the last.
    pub fn next(&mut self)
        ensures
            final(self).titles == old(self).titles,
            final(self).index == ring_next(old(self).index, old(self).titles.len()),
            old(self).titles@.len() > 0 ==> final(self).wf(),
    {
        let len: usize = self.titles.len();
        if len == 0 {
            return ;
        }
        if self.index >= len - 1 {
            self.index = 0;
        } else {
            self.index = self.index + 1;
        }
    }

    /// Shows the tab to the left, or the last one before the first.
    pub fn previous(&mut self)
        ensures
            final(self).titles == old(self).titles,
            final(self).index == ring_previous(old(self).index, old(self).titles.len()),
            old(self).titles@.len() > 0 ==> final(self).wf(),
    {
        let len: usize = self.titles.len();
        if len == 0 {
            return ;
        }
        if self.index > 0 && self.index < len {
            self.index = self.index - 1;
        } else {
            self.index = len - 1;
        }
    }
}

/// A list of items with at most one of them selected.
pub struct StatefulList<T> {
    pub selected: Option<usize>,
    pub items: Vec<T>,
}

impl<T> StatefulList<T> {
    /// The cursor, where set, points at one of the items.
    pub open spec fn wf(&self) -> bool {
        cursor_in_range(self.selected, self.items.len())
    }

    /// A list with nothing selected.
    pub fn with_items(items: Vec<T>) -> (list: StatefulList<T>)
        ensures
            list.items == items,
            list.selected is None,
            list.wf(),
    {
        StatefulList { selected: None, items }
    }

    /// Selects the item after the selected one, the first after the last, and
    /// the first where none is selected. Does nothing on an empty list.
    pub fn next(&mut self)
        ensures
            final(self).items == old(self).items,
            final(self).selected == cursor_next(old(self).selected, old(self).items.len()),
            old(self).items@.len() > 0 ==> final(self).selected is Some && final(self).wf(),
    {
        let len: usize = self.items.len();
        if len == 0 {
            return ;
        }
        let i: usize = match self.selected {
            Some(i) => {
                if i >= len - 1 {
                    0
                } else {
                    i + 1
                }
            },
            None => 0,
        };
        self.selected = Some(i);
    }

    /// Selects the item before the selected one, the last before the first,
    /// and the first where none is selected. Does nothing on an empty list.
    pub fn previous(&mut self)
        ensures
            final(self).items == old(self).items,
            final(self).selected == cursor_previous(old(self).selected, old(self).items.len()),
            old(self).items@.len() > 0 ==> final(self).selected is Some && final(self).wf(),
    {
        let len: usize = self.items.len();
        if len == 0 {
            return ;
        }
        let i: usize = match self.selected {
            Some(i) => {
                if i == 0 || i >= len {
                    len - 1
                } else {
                    i - 1
                }
            },
            None => 0,
        };
        self.selected = Some(i);
    }
}

/// A step forward on a non-empty ring is `(i + 1) mod len`.
pub proof fn lemma_ring_next_is_modulo(i: usize, len: usize)
    requires
        i < len,
    ensures
        ring_next(i, len) == (i + 1) % (len as int),
{
    if i + 1 == len {
        vstd::arithmetic::div_mod::lemma_mod_self_0(len as int);
    } else {
        vstd::arithmetic::div_mod::lemma_small_mod((i + 1) as nat, len as nat);
    }
}

/// Whatever moves are made on a list of at least one item, a cursor that was
/// unset or in range ends in range, and is set once a move was made.
pub proof fn lemma_cursor_stays_in_range(cursor: Option<usize>, len: usize, moves: Seq<CursorMove>)
    requires
        len >= 1,
        cursor_in_range(cursor, len),
    ensures
        cursor_in_range(cursor_after(cursor, len, moves), len),
        moves.len() > 0 ==> cursor_after(cursor, len, moves) is Some,
    decreases moves.len(),
{
    if moves.len() > 0 {
        lemma_cursor_stays_in_range(cursor, len, moves.drop_last());
    }
}

/// From a cursor that points at an item, a step forward and then one back
/// returns to that item, and so does a step back and then one forward.
pub proof fn lemma_next_previous_round_trip(i: usize, len: usize)
    requires
        i < len,
    ensures
        cursor_previous(cursor_next(Some(i), len), len) == Some(i),
        cursor_next(cursor_previous(Some(i), len), len) == Some(i),
{
}

/// On a ring, `steps` steps forward that do not pass the end add `steps`.
proof fn lemma_ring_next_inside(i: usize, len: usize, steps: nat)
    requires
        i + steps < len,
    ensures
        ring_next_times(i, len, steps) == i + steps,
    decreases steps,
{
    if steps > 0 {
        lemma_ring_next_inside(ring_next(i, len), len, (steps - 1) as nat);
    }
}

/// Steps forward compose.
proof fn lemma_ring_next_split(i: usize, len: usize, a: nat, b: nat)
    ensures
        ring_next_times(i, len, a + b) == ring_next_times(ring_next_times(i, len, a), len, b),
    decreases a,
{
    if a > 0 {
        lemma_ring_next_split(ring_next(i, len), len, (a - 1) as nat, b);
        assert((a + b - 1) as nat == (a - 1) as nat + b);
    }
}

/// On a tab bar of `len` tabs, `len` steps forward return to the tab they
/// started from, and a step back from the first tab reaches the last.
pub proof fn lemma_tabs_full_circle(i: usize, len: usize)
    requires
        i < len,
    ensures
        ring_next_times(i, len, len as nat) == i,
        ring_previous(0, len) == len - 1,
{
    let up: nat = (len - 1 - i) as nat;
    lemma_ring_next_inside(i, len, up);
    lemma_ring_next_split(i, len, up, 1);
    assert(ring_next_times((len - 1) as usize, len, 1) == ring_next((len - 1) as usize, len)) by {
        reveal_with_fuel(ring_next_times, 2);
    }
    lemma_ring_next_inside(0, len, i as nat);
    lemma_ring_next_split(i, len, up + 1, i as nat);
    assert(up + 1 + i == len);
}

} // verus!
