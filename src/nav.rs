//! Cursor arithmetic of the interface's lists and text panes: which row is
//! selected and which row the visible window starts at.
use vstd::prelude::*;

verus! {

/// `a - b`, or zero when `b` is larger.
pub open spec fn sat_sub(a: int, b: int) -> int {
    if a > b {
        a - b
    } else {
        0
    }
}

/// `min(a + b, limit)`.
pub open spec fn capped_add(a: int, b: int, limit: int) -> int {
    if a + b > limit {
        limit
    } else {
        a + b
    }
}

/// A selectable list of `len` rows, shown a page of `page` rows at a time once
/// it has been laid out.
#[derive(Debug, Clone, Copy, PartialEq, Eq, Structural)]
pub struct ListNav {
    pub len: usize,
    pub selected: usize,
    pub offset: usize,
    pub page: Option<usize>,
}

impl ListNav {
    /// Index of the last row, zero for an empty list.
    pub open spec fn last_row(self) -> int {
        sat_sub(self.len as int, 1)
    }

    /// Where the window starts so that the end of the list fills the page; as
    /// far down as possible before any layout.
    pub open spec fn bottom(self) -> int {
        match self.page {
            Some(p) => sat_sub(self.len as int, p as int),
            None => usize::MAX as int,
        }
    }

    /// A list of `len` rows with row `selected` selected, not yet laid out.
    pub fn new(len: usize, selected: usize) -> (r: Self)
        ensures
            r == (ListNav { len, selected, offset: usize::MAX, page: None }),
    {
        ListNav { len, selected, offset: usize::MAX, page: None }
    }

    fn bottom_exec(&self) -> (r: usize)
        ensures
            r == self.bottom(),
    {
        match self.page {
            Some(p) => self.len.saturating_sub(p),
            None => usize::MAX,
        }
    }

    /// Takes in the page height of a layout; on the first one the window is put
    /// at the end of the list.
    pub fn layout(&mut self, page: usize)
        ensures
            final(self).page == Some(page),
            final(self).len == old(self).len,
            final(self).selected == old(self).selected,
            final(self).offset == (if old(self).page is None {
                sat_sub(old(self).len as int, page as int)
            } else {
                old(self).offset as int
            }),
    {
        if self.page.is_none() {
            self.offset = self.len.saturating_sub(page);
        }
        self.page = Some(page);
    }

    /// Takes in where the renderer moved the window to.
    pub fn scrolled_to(&mut self, offset: usize)
        ensures
            *final(self) == (ListNav { offset, ..*old(self) }),
    {
        self.offset = offset;
    }

    /// Selects row `index` with the window at the end of the list.
    pub fn select(&mut self, index: usize)
        ensures
            *final(self) == (ListNav { selected: index, offset: old(self).bottom() as usize, ..*old(self) }),
    {
        self.offset = self.bottom_exec();
        self.selected = index;
    }

    /// Shows a list of `len` rows with row `index` selected and the window at
    /// its end.
    pub fn reset(&mut self, len: usize, index: usize)
        ensures
            final(self).len == len,
            final(self).selected == index,
            final(self).page == old(self).page,
            final(self).offset == (ListNav { len, ..*old(self) }).bottom(),
    {
        self.len = len;
        self.selected = index;
        self.offset = self.bottom_exec();
    }

    /// Shows a new list of `len` rows with its first row selected.
    pub fn change_len(&mut self, len: usize)
        ensures
            *final(self) == (ListNav { len, selected: 0, ..*old(self) }),
    {
        self.selected = 0;
        self.len = len;
    }

    /// Selects the next row, wrapping from the last to the first.
    pub fn down(&mut self)
        ensures
            *final(self) == (ListNav {
                selected: if old(self).selected == old(self).last_row() {
                    0
                } else {
                    capped_add(old(self).selected as int, 1, usize::MAX as int) as usize
                },
                ..*old(self)
            }),
    {
        let max = self.len.saturating_sub(1);
        self.selected = if self.selected == max {
            0
        } else {
            self.selected.saturating_add(1)
        };
    }

    /// Selects the previous row, wrapping from the first to the last.
    pub fn up(&mut self)
        ensures
            *final(self) == (ListNav {
                selected: if old(self).selected == 0 {
                    old(self).last_row() as usize
                } else {
                    (old(self).selected - 1) as usize
                },
                ..*old(self)
            }),
    {
        self.selected = if self.selected == 0 {
            self.len.saturating_sub(1)
        } else {
            self.selected - 1
        };
    }

    /// Moves selection and window a page down, stopping at the end; nothing
    /// before the first layout.
    pub fn pg_down(&mut self)
        ensures
            old(self).page is None ==> *final(self) == *old(self),
            old(self).page is Some ==> {
                let p = old(self).page.unwrap() as int;
                let moved = capped_add(old(self).selected as int, p, usize::MAX as int);
                &&& final(self).selected == if moved < old(self).last_row() {
                    moved
                } else {
                    old(self).last_row()
                }
                &&& final(self).offset == if capped_add(old(self).offset as int, p, usize::MAX as int)
                    < sat_sub(old(self).len as int, p) {
                    capped_add(old(self).offset as int, p, usize::MAX as int)
                } else {
                    sat_sub(old(self).len as int, p)
                }
                &&& final(self).len == old(self).len
                &&& final(self).page == old(self).page
            },
    {
        if let Some(page) = self.page {
            let moved = self.selected.saturating_add(page);
            let max = self.len.saturating_sub(1);
            self.selected = if moved < max {
                moved
            } else {
                max
            };
            let shifted = self.offset.saturating_add(page);
            let bottom = self.len.saturating_sub(page);
            self.offset = if shifted < bottom {
                shifted
            } else {
                bottom
            };
        }
    }

    /// Moves selection and window a page up, stopping at the start; nothing
    /// before the first layout.
    pub fn pg_up(&mut self)
        ensures
            old(self).page is None ==> *final(self) == *old(self),
            old(self).page is Some ==> *final(self) == (ListNav {
                selected: sat_sub(old(self).selected as int, old(self).page.unwrap() as int) as usize,
                offset: sat_sub(old(self).offset as int, old(self).page.unwrap() as int) as usize,
                ..*old(self)
            }),
    {
        if let Some(page) = self.page {
            self.selected = self.selected.saturating_sub(page);
            self.offset = self.offset.saturating_sub(page);
        }
    }

    /// Selects the first row and shows the start of the list.
    pub fn home(&mut self)
        ensures
            *final(self) == (ListNav { selected: 0, offset: 0, ..*old(self) }),
    {
        self.selected = 0;
        self.offset = 0;
    }

    /// Selects the last row and shows the end of the list.
    pub fn end(&mut self)
        ensures
            *final(self) == (ListNav {
                selected: old(self).last_row() as usize,
                offset: old(self).bottom() as usize,
                ..*old(self)
            }),
    {
        self.selected = self.len.saturating_sub(1);
        self.offset = self.bottom_exec();
    }
}

/// A text pane scrolled by whole lines, never past its last page.
#[derive(Debug, Clone, Copy, PartialEq, Eq, Structural)]
pub struct Scroll {
    pub scroll: u16,
    pub max_scroll: u16,
}

impl Scroll {
    pub open spec fn wf(self) -> bool {
        self.scroll <= self.max_scroll
    }

    /// A pane at its first line.
    pub fn new() -> (r: Self)
        ensures
            r.wf(),
            r == (Scroll { scroll: 0, max_scroll: 0 }),
    {
        Scroll { scroll: 0, max_scroll: 0 }
    }

    /// Takes in a text of `lines` lines shown `height` lines at a time: the last
    /// page starts at `lines - height` (lines beyond `u16::MAX` do not count), and
    /// the scroll stays at or before it.
    pub fn fit(&mut self, lines: usize, height: u16)
        ensures
            final(self).wf(),
            ({
                let l = if lines > u16::MAX as usize {
                    u16::MAX as int
                } else {
                    lines as int
                };
                &&& final(self).max_scroll == sat_sub(l, height as int)
                &&& final(self).scroll == if old(self).scroll > final(self).max_scroll {
                    final(self).max_scroll
                } else {
                    old(self).scroll
                }
            }),
    {
        let l: u16 = if lines > u16::MAX as usize {
            u16::MAX
        } else {
            lines as u16
        };
        self.max_scroll = l.saturating_sub(height);
        if self.scroll > self.max_scroll {
            self.scroll = self.max_scroll;
        }
    }

    /// One line up.
    pub fn up(&mut self)
        requires
            old(self).wf(),
        ensures
            final(self).wf(),
            *final(self) == (Scroll { scroll: sat_sub(old(self).scroll as int, 1) as u16, ..*old(self) }),
    {
        self.scroll = self.scroll.saturating_sub(1);
    }

    /// One line down, not past the last page.
    pub fn down(&mut self)
        requires
            old(self).wf(),
        ensures
            final(self).wf(),
            *final(self) == (Scroll {
                scroll: if old(self).scroll < old(self).max_scroll {
                    (old(self).scroll + 1) as u16
                } else {
                    old(self).max_scroll
                },
                ..*old(self)
            }),
    {
        if self.scroll < self.max_scroll {
            self.scroll = self.scroll + 1;
        }
    }

    /// Back to the first line.
    pub fn home(&mut self)
        requires
            old(self).wf(),
        ensures
            final(self).wf(),
            *final(self) == (Scroll { scroll: 0, ..*old(self) }),
    {
        self.scroll = 0;
    }

    /// To the last page.
    pub fn end(&mut self)
        ensures
            final(self).wf(),
            *final(self) == (Scroll { scroll: old(self).max_scroll, ..*old(self) }),
    {
        self.scroll = self.max_scroll;
    }
}

} // verus!
