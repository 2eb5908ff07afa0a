use vstd::prelude::*;

verus! {

/// The scrollable-list state: `selection` is the index of the chosen
/// entry, `scroll` the index of the topmost visible one. Both are kept
/// consistent with the current list length and the number of rows the
/// terminal can show, by every operation of this module.
#[derive(Clone, Copy, Debug, PartialEq, Eq, Structural)]
pub struct Viewport {
    pub selection: usize,
    pub scroll: usize,
}

/// `x` clamped into `[lo, hi]`.
pub open spec fn clamped(x: int, lo: int, hi: int) -> int {
    if x < lo {
        lo
    } else if x > hi {
        hi
    } else {
        x
    }
}

/// The greatest scroll that does not run past the point where the last
/// entry sits on the last visible row.
pub open spec fn max_scroll(len: int, vis: int) -> int {
    if len > vis {
        len - vis
    } else {
        0
    }
}

/// The state after moving the selection by `delta`: the selection is
/// clamped into the list, and the scroll follows it by exactly the
/// amount by which it would otherwise leave the visible window.
pub open spec fn spec_move_selection(v: Viewport, delta: int, len: int, vis: int) -> Viewport {
    if len == 0 {
        v
    } else {
        let s = clamped(v.selection + delta, 0, len - 1);
        let c = if s < v.scroll {
            s
        } else if s >= v.scroll + vis {
            s - vis + 1
        } else {
            v.scroll as int
        };
        Viewport { selection: s as usize, scroll: c as usize }
    }
}

/// The state after scrolling by `delta`: the scroll is clamped so the
/// window never runs past the end, and the selection is pulled back
/// into the window if the move would leave it off-screen.
pub open spec fn spec_scroll_by(v: Viewport, delta: int, len: int, vis: int) -> Viewport {
    if len == 0 {
        v
    } else {
        let c = clamped(v.scroll + delta, 0, max_scroll(len, vis));
        let s = clamped(v.selection as int, c, c + vis - 1);
        Viewport { selection: s as usize, scroll: c as usize }
    }
}

/// The state after jumping to the first entry.
pub open spec fn spec_jump_home() -> Viewport {
    Viewport { selection: 0, scroll: 0 }
}

/// The state after jumping to the last entry: the scroll grows just
/// enough to bring it into the window, and no further.
pub open spec fn spec_jump_end(v: Viewport, len: int, vis: int) -> Viewport {
    if len == 0 {
        v
    } else {
        let s = len - 1;
        let c = if s >= v.scroll + vis {
            s - vis + 1
        } else {
            v.scroll as int
        };
        Viewport { selection: s as usize, scroll: c as usize }
    }
}

/// The repaired state after the list or the terminal changed under an
/// arbitrary viewport: clamp the selection into the list, clamp the
/// scroll to its greatest allowed value and then under the selection,
/// and finally pull the selection up into the shrunken window.
pub open spec fn spec_reclamp(v: Viewport, len: int, vis: int) -> Viewport {
    if len == 0 {
        Viewport { selection: 0, scroll: 0 }
    } else {
        let s1 = clamped(v.selection as int, 0, len - 1);
        let c1 = clamped(v.scroll as int, 0, max_scroll(len, vis));
        let c2 = clamped(c1, 0, s1);
        let s2 = if s1 >= c2 + vis {
            c2 + vis - 1
        } else {
            s1
        };
        Viewport { selection: s2 as usize, scroll: c2 as usize }
    }
}

impl Viewport {
    /// Consistency with a list of `len` entries shown in `vis` rows:
    /// the selection indexes the list, sits inside the visible window,
    /// and the window never runs past the end of the list.
    pub open spec fn wf(self, len: int, vis: int) -> bool {
        &&& vis >= 1
        &&& if len == 0 {
            self.selection == 0 && self.scroll == 0
        } else {
            &&& self.selection < len
            &&& self.scroll <= self.selection
            &&& self.selection < self.scroll + vis
            &&& self.scroll <= max_scroll(len, vis)
        }
    }

    pub fn new() -> (v: Viewport)
        ensures
            v == spec_jump_home(),
            forall|len: int, vis: int| vis >= 1 && len >= 0 ==> v.wf(len, vis),
    {
        Viewport { selection: 0, scroll: 0 }
    }

    /// Moves the selection by `delta` entries, clamped to the list;
    /// the scroll follows so the selection stays visible.
    pub fn move_selection(&mut self, delta: isize, list_len: usize, visible_rows: usize)
        requires
            old(self).wf(list_len as int, visible_rows as int),
        ensures
            final(self).wf(list_len as int, visible_rows as int),
            *final(self) == spec_move_selection(
                *old(self),
                delta as int,
                list_len as int,
                visible_rows as int,
            ),
    {
        if list_len == 0 {
            return;
        }
        let t: i128 = self.selection as i128 + delta as i128;
        let s: usize = if t < 0 {
            0
        } else if t > (list_len - 1) as i128 {
            list_len - 1
        } else {
            t as usize
        };
        if s < self.scroll {
            self.scroll = s;
        } else if s - self.scroll >= visible_rows {
            self.scroll = s - (visible_rows - 1);
        }
        self.selection = s;
    }

    /// Scrolls the window by `delta` rows, clamped so it never runs
    /// past the end; the selection is pulled along if the window would
    /// otherwise leave it off-screen.
    pub fn scroll_by(&mut self, delta: isize, list_len: usize, visible_rows: usize)
        requires
            old(self).wf(list_len as int, visible_rows as int),
        ensures
            final(self).wf(list_len as int, visible_rows as int),
            *final(self) == spec_scroll_by(
                *old(self),
                delta as int,
                list_len as int,
                visible_rows as int,
            ),
    {
        if list_len == 0 {
            return;
        }
        let maxs: usize = if list_len > visible_rows {
            list_len - visible_rows
        } else {
            0
        };
        let t: i128 = self.scroll as i128 + delta as i128;
        let c: usize = if t < 0 {
            0
        } else if t > maxs as i128 {
            maxs
        } else {
            t as usize
        };
        self.scroll = c;
        if self.selection < c {
            self.selection = c;
        } else if self.selection - c >= visible_rows {
            self.selection = c + (visible_rows - 1);
        }
    }

    /// Jumps to the first entry, with the window at the top.
    pub fn jump_home(&mut self)
        ensures
            *final(self) == spec_jump_home(),
    {
        self.selection = 0;
        self.scroll = 0;
    }

    /// Jumps to the last entry, growing the scroll minimally until the
    /// entry is visible.
    pub fn jump_end(&mut self, list_len: usize, visible_rows: usize)
        requires
            old(self).wf(list_len as int, visible_rows as int),
        ensures
            final(self).wf(list_len as int, visible_rows as int),
            *final(self) == spec_jump_end(*old(self), list_len as int, visible_rows as int),
    {
        if list_len == 0 {
            return;
        }
        let s = list_len - 1;
        if s >= self.scroll && s - self.scroll >= visible_rows {
            self.scroll = s - (visible_rows - 1);
        }
        self.selection = s;
    }

    /// Repairs the viewport after the list shrank or grew, or after
    /// the terminal was resized: afterwards the state is consistent
    /// with the given length and row count, whatever it was before.
    pub fn reclamp(&mut self, list_len: usize, visible_rows: usize)
        requires
            visible_rows >= 1,
        ensures
            final(self).wf(list_len as int, visible_rows as int),
            *final(self) == spec_reclamp(*old(self), list_len as int, visible_rows as int),
    {
        if list_len == 0 {
            self.selection = 0;
            self.scroll = 0;
            return;
        }
        let s1: usize = if self.selection > list_len - 1 {
            list_len - 1
        } else {
            self.selection
        };
        let maxs: usize = if list_len > visible_rows {
            list_len - visible_rows
        } else {
            0
        };
        let c1: usize = if self.scroll > maxs {
            maxs
        } else {
            self.scroll
        };
        let c2: usize = if c1 > s1 {
            s1
        } else {
            c1
        };
        let s2: usize = if s1 - c2 >= visible_rows {
            c2 + (visible_rows - 1)
        } else {
            s1
        };
        self.selection = s2;
        self.scroll = c2;
    }
}

/// The selection of a consistent viewport always indexes the list:
/// `0 <= selection < max(1, len)` — with an empty list it rests at 0.
pub proof fn lemma_selection_bound(v: Viewport, len: int, vis: int)
    requires
        v.wf(len, vis),
    ensures
        len > 0 ==> v.selection < len,
        len == 0 ==> v.selection == 0,
{
}

/// In a consistent viewport over a non-empty list the selection is
/// never off-screen: `scroll <= selection < scroll + visible_rows`.
pub proof fn lemma_viewport_containment(v: Viewport, len: int, vis: int)
    requires
        v.wf(len, vis),
        len > 0,
    ensures
        v.scroll <= v.selection < v.scroll + vis,
{
}

} // verus!
