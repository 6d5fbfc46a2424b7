//! The frame store and its dirty-page bookkeeping.

use vstd::prelude::*;
use crate::display::dirty::DirtyRange;

verus! {

/// The pixel store of the panel together with the span of pages that changed
/// since the last flush.
///
/// The byte at index `page * 128 + col` holds the eight pixels of column `col`
/// within page `page`.
pub struct FrameBuffer {
    buffer: [u8; 1024],
    dirty: DirtyRange,
    flushed: Ghost<Seq<u8>>,
}

impl View for FrameBuffer {
    type V = Seq<u8>;

    /// The 1024 bytes of the store.
    closed spec fn view(&self) -> Seq<u8> {
        self.buffer@
    }
}

impl FrameBuffer {
    /// The dirty span is well formed, and every page outside it still holds
    /// what it held at the last flush: the span never under-reports a change.
    #[verifier::type_invariant]
    pub closed spec fn wf(&self) -> bool {
        &&& self.dirty.wf()
        &&& self.flushed@.len() == 1024
        &&& forall|i: int|
            0 <= i < 1024 && !self.dirty.covers(i / 128) ==> self.buffer@[i] == self.flushed@[i]
    }

    /// The span of pages marked dirty.
    pub closed spec fn dirty(&self) -> DirtyRange {
        self.dirty
    }

    /// The store as it was handed to the bus by the last flush. Before the
    /// first flush it is arbitrary.
    pub closed spec fn flushed(&self) -> Seq<u8> {
        self.flushed@
    }

    /// The store always has 1024 bytes.
    pub proof fn lemma_len(&self)
        ensures
            self@.len() == 1024,
    {
    }

    /// What validity means in terms of the model: a page outside the dirty
    /// span has not changed since the last flush.
    pub proof fn lemma_clean_pages_unchanged(&self)
        requires
            self.wf(),
        ensures
            self.dirty().wf(),
            self.flushed().len() == 1024,
            forall|i: int|
                0 <= i < 1024 && !self.dirty().covers(i / 128) ==> self@[i] == self.flushed()[i],
    {
    }

    /// A store that holds `splash`, with every page dirty.
    pub fn new(splash: [u8; 1024]) -> (r: FrameBuffer)
        ensures
            r.wf(),
            r@ == splash@,
            r.dirty() == DirtyRange::all(),
    {
        let mut dirty = DirtyRange::new();
        dirty.invalidate();
        FrameBuffer { buffer: splash, dirty, flushed: Ghost(splash@) }
    }

    /// The bytes of the store.
    pub fn buffer(&self) -> (r: &[u8; 1024])
        ensures
            r@ == self@,
    {
        &self.buffer
    }

    /// The span of pages marked dirty.
    pub fn dirty_range(&self) -> (r: DirtyRange)
        ensures
            r == self.dirty(),
            r.wf(),
    {
        proof {
            use_type_invariant(self);
        }
        self.dirty
    }

    /// Marks all eight pages dirty.
    pub fn invalidate(&mut self)
        ensures
            final(self)@ == old(self)@,
            final(self).dirty() == DirtyRange::all(),
            final(self).flushed() == old(self).flushed(),
    {
        proof {
            use_type_invariant(&*self);
        }
        let mut d = self.dirty;
        d.invalidate();
        self.dirty = d;
    }

    /// Extends the dirty span so that it includes `page`.
    pub fn mark_dirty(&mut self, page: u8)
        requires
            page <= 7,
        ensures
            final(self)@ == old(self)@,
            final(self).dirty() == old(self).dirty().marked(page),
            final(self).flushed() == old(self).flushed(),
    {
        proof {
            use_type_invariant(&*self);
            self.dirty.lemma_marked(page);
        }
        let mut d = self.dirty;
        d.mark_dirty(page);
        self.dirty = d;
    }

    /// Switches every pixel off and marks all pages dirty.
    pub fn clear(&mut self)
        ensures
            final(self)@ == Seq::new(1024, |i: int| 0u8),
            final(self).dirty() == DirtyRange::all(),
            final(self).flushed() == old(self).flushed(),
    {
        self.invalidate();
        let mut i: usize = 0;
        while i < 1024
            invariant
                i <= 1024,
                self.dirty() == DirtyRange::all(),
                self.flushed() == old(self).flushed(),
                forall|j: int| 0 <= j < i ==> self@[j] == 0u8,
            decreases 1024 - i,
        {
            self.put(i, 0);
            i += 1;
        }
    }

    /// The byte at `index`.
    pub(crate) fn get(&self, index: usize) -> (r: u8)
        requires
            index < 1024,
        ensures
            r == self@[index as int],
    {
        self.buffer[index]
    }

    /// Stores `value` at `index`, whose page is already marked dirty.
    pub(crate) fn put(&mut self, index: usize, value: u8)
        requires
            index < 1024,
            old(self).dirty().covers(index as int / 128),
        ensures
            final(self)@ == old(self)@.update(index as int, value),
            final(self).dirty() == old(self).dirty(),
            final(self).flushed() == old(self).flushed(),
    {
        proof {
            use_type_invariant(&*self);
        }
        self.buffer[index] = value;
    }

    /// Records that the dirty pages have been handed to the bus.
    pub(crate) fn mark_flushed(&mut self)
        ensures
            final(self)@ == old(self)@,
            final(self).dirty() == DirtyRange::none(),
            final(self).flushed() == old(self)@,
    {
        proof {
            use_type_invariant(&*self);
        }
        self.flushed = Ghost(self.buffer@);
        let mut d = self.dirty;
        d.reset();
        self.dirty = d;
    }
}

} // verus!
