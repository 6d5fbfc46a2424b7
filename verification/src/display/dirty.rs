//! Tracking of the pages that changed since the last flush.

use vstd::prelude::*;

verus! {

/// An inclusive span of pages, or the clean sentinel.
///
/// A `first_dirty` above 7 means that no page is dirty.
#[derive(Clone, Copy, Debug, PartialEq, Eq, Structural)]
pub struct DirtyRange {
    /// First dirty page, or 8 when clean.
    pub first_dirty: u8,
    /// Last dirty page, or 8 when clean.
    pub last_dirty: u8,
}

impl DirtyRange {
    /// Either the clean sentinel `(8, 8)` or a span within pages 0 to 7.
    pub open spec fn wf(self) -> bool {
        ||| self.first_dirty == 8 && self.last_dirty == 8
        ||| self.first_dirty <= self.last_dirty <= 7
    }

    /// No page is dirty.
    pub open spec fn clean(self) -> bool {
        self.first_dirty > 7
    }

    /// `page` lies within the dirty span.
    pub open spec fn covers(self, page: int) -> bool {
        !self.clean() && self.first_dirty <= page <= self.last_dirty
    }

    /// The sentinel for "nothing to transmit".
    pub open spec fn none() -> DirtyRange {
        DirtyRange { first_dirty: 8, last_dirty: 8 }
    }

    /// The span of all eight pages.
    pub open spec fn all() -> DirtyRange {
        DirtyRange { first_dirty: 0, last_dirty: 7 }
    }

    /// The smallest span that holds both this one and `page`.
    pub open spec fn marked(self, page: u8) -> DirtyRange {
        DirtyRange {
            first_dirty: if page < self.first_dirty {
                page
            } else {
                self.first_dirty
            },
            last_dirty: if self.last_dirty > 7 || page > self.last_dirty {
                page
            } else {
                self.last_dirty
            },
        }
    }

    /// The span after marking `page` when `page` is on the panel, and the span
    /// itself when it is not.
    pub open spec fn marked_if_visible(self, page: int) -> DirtyRange {
        if 0 <= page <= 7 {
            self.marked(page as u8)
        } else {
            self
        }
    }

    /// A range with nothing dirty.
    pub fn new() -> (r: DirtyRange)
        ensures
            r == DirtyRange::none(),
    {
        DirtyRange { first_dirty: 8, last_dirty: 8 }
    }

    /// Whether nothing is dirty.
    pub fn is_clean(&self) -> (r: bool)
        ensures
            r == self.clean(),
    {
        self.first_dirty > 7
    }

    /// Marks all eight pages dirty.
    pub fn invalidate(&mut self)
        ensures
            *final(self) == DirtyRange::all(),
    {
        self.first_dirty = 0;
        self.last_dirty = 7;
    }

    /// Extends the span so that it includes `page`.
    pub fn mark_dirty(&mut self, page: u8)
        requires
            page <= 7,
        ensures
            *final(self) == old(self).marked(page),
    {
        if page < self.first_dirty {
            self.first_dirty = page;
        }
        if self.last_dirty > 7 || page > self.last_dirty {
            self.last_dirty = page;
        }
    }

    /// Forgets every dirty page.
    pub fn reset(&mut self)
        ensures
            *final(self) == DirtyRange::none(),
    {
        self.first_dirty = 8;
        self.last_dirty = 8;
    }

    /// Marking keeps a span well formed, covers the marked page, never
    /// uncovers a page, covers nothing outside the hull of the old span and
    /// the page, and changes nothing when the page was already covered.
    pub proof fn lemma_marked(self, page: u8)
        requires
            self.wf(),
            page <= 7,
        ensures
            self.marked(page).wf(),
            self.marked(page).covers(page as int),
            forall|q: int| self.covers(q) ==> self.marked(page).covers(q),
            forall|q: int|
                self.marked(page).covers(q) && !self.covers(q) ==> {
                    ||| q == page
                    ||| !self.clean() && page < q < self.first_dirty
                    ||| !self.clean() && self.last_dirty < q < page
                },
            self.covers(page as int) ==> self.marked(page) == self,
            self.marked(page).marked(page) == self.marked(page),
    {
    }
}

} // verus!
