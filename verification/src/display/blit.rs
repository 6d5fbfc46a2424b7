//! Placement of images onto the frame store.
//!
//! An image is placed by its top-left corner `(x, y)`, which may lie outside
//! the panel. Three placements are painted: an image that fills the panel
//! exactly, a one-page image on a page boundary, and a one-page image that
//! straddles two pages. Everything else leaves the store untouched.

use vstd::prelude::*;
use crate::display::buffer::FrameBuffer;
use crate::display::dirty::DirtyRange;
use crate::display::image::Image;
use crate::display::ops::Op;

verus! {

/// How an image at a given position relates to the panel.
#[derive(Clone, Copy, Debug, PartialEq, Eq, Structural)]
pub enum Placement {
    /// No pixel of the image falls on the panel.
    OffScreen,
    /// The image covers the panel exactly.
    FullScreen,
    /// The image is one page tall and starts on a page boundary.
    Aligned,
    /// The image is one page tall and starts between two page boundaries.
    Misaligned,
    /// The image has a shape that is not painted.
    Unsupported,
}

/// Classifies an image of the given size with its top-left corner at `(x, y)`.
pub open spec fn placement(width: int, height: int, x: int, y: int) -> Placement {
    if y > 63 || x > 127 || x + width <= 0 || y + height <= 0 {
        Placement::OffScreen
    } else if x == 0 && y == 0 && width == 128 && height == 64 {
        Placement::FullScreen
    } else if height == 8 && y % 8 == 0 && 0 <= y < 64 {
        Placement::Aligned
    } else if height == 8 {
        Placement::Misaligned
    } else {
        Placement::Unsupported
    }
}

/// The upper of the two pages that a one-page image at height `y` touches;
/// -1 when the image starts above the panel.
pub open spec fn first_row(y: int) -> int {
    if y < 0 {
        -1
    } else {
        y / 8
    }
}

/// The offset of `y` below the page boundary above it.
pub open spec fn rem(y: int) -> int {
    (y + 8) % 8
}

/// `col` is a panel column that an image of the given width at `x` covers.
pub open spec fn in_columns(width: int, x: int, col: int) -> bool {
    (if x < 0 { 0 } else { x }) <= col < (if x + width > 128 { 128 } else { x + width })
}

/// `src` moved by `shift` bit positions: toward bit 0 when `shift` is
/// positive, toward bit 7 when it is negative. Bits moved past either end are
/// lost.
pub open spec fn shifted(src: u8, shift: int) -> u8 {
    if shift == 0 {
        src
    } else if shift > 0 {
        src >> (shift as u32)
    } else {
        src << ((-shift) as u32)
    }
}

/// The byte at `index` after painting `img` at `(x, y)` with `op` onto `buf`.
pub open spec fn painted_byte(buf: Seq<u8>, op: Op, img: Image, x: int, y: int, index: int) -> u8 {
    let page = index / 128;
    let col = index % 128;
    match placement(img.width as int, img.height as int, x, y) {
        Placement::OffScreen | Placement::Unsupported => buf[index],
        Placement::FullScreen => op.merged(buf[index], img.data@[index]),
        Placement::Aligned => if page == y / 8 && in_columns(img.width as int, x, col) {
            op.merged(buf[index], img.data@[col - x])
        } else {
            buf[index]
        },
        Placement::Misaligned => if !in_columns(img.width as int, x, col) {
            buf[index]
        } else if page == first_row(y) {
            op.merged(buf[index], shifted(img.data@[col - x], rem(y)))
        } else if page == first_row(y) + 1 {
            op.merged(buf[index], shifted(img.data@[col - x], rem(y) - 8))
        } else {
            buf[index]
        },
    }
}

/// The store after painting `img` at `(x, y)` with `op` onto `buf`.
pub open spec fn painted(buf: Seq<u8>, op: Op, img: Image, x: int, y: int) -> Seq<u8> {
    Seq::new(1024, |index: int| painted_byte(buf, op, img, x, y, index))
}

/// The dirty span after painting an image of the given size at `(x, y)`.
pub open spec fn dirty_after(d: DirtyRange, width: int, height: int, x: int, y: int) -> DirtyRange {
    match placement(width, height, x, y) {
        Placement::OffScreen | Placement::Unsupported => d,
        Placement::FullScreen => DirtyRange::all(),
        Placement::Aligned => d.marked((y / 8) as u8),
        Placement::Misaligned => d.marked_if_visible(first_row(y)).marked_if_visible(
            first_row(y) + 1,
        ),
    }
}

/// The store after merging a one-page image at column `x` into `page`, each
/// source byte moved by `shift` bit positions. A `page` outside the panel
/// leaves the store as it is.
pub open spec fn page_painted(buf: Seq<u8>, op: Op, img: Image, x: int, page: int, shift: int) -> Seq<
    u8,
> {
    Seq::new(
        1024,
        |index: int|
            if index / 128 == page && in_columns(img.width as int, x, index % 128) {
                op.merged(buf[index], shifted(img.data@[index % 128 - x], shift))
            } else {
                buf[index]
            },
    )
}

/// An aligned placement paints one page without moving any bit.
pub proof fn lemma_painted_aligned(buf: Seq<u8>, op: Op, img: Image, x: int, y: int)
    requires
        buf.len() == 1024,
        placement(img.width as int, img.height as int, x, y) == Placement::Aligned,
    ensures
        painted(buf, op, img, x, y) == page_painted(buf, op, img, x, y / 8, 0),
{
    assert(painted(buf, op, img, x, y) =~= page_painted(buf, op, img, x, y / 8, 0));
}

/// A misaligned placement paints the upper page and then the lower page.
pub proof fn lemma_painted_misaligned(buf: Seq<u8>, op: Op, img: Image, x: int, y: int)
    requires
        buf.len() == 1024,
        placement(img.width as int, img.height as int, x, y) == Placement::Misaligned,
    ensures
        painted(buf, op, img, x, y) == page_painted(
            page_painted(buf, op, img, x, first_row(y), rem(y)),
            op,
            img,
            x,
            first_row(y) + 1,
            rem(y) - 8,
        ),
{
    let upper = page_painted(buf, op, img, x, first_row(y), rem(y));
    let both = page_painted(upper, op, img, x, first_row(y) + 1, rem(y) - 8);
    assert forall|i: int| 0 <= i < 1024 implies painted(buf, op, img, x, y)[i] == both[i] by {
        let page = i / 128;
        if page == first_row(y) + 1 {
            assert(upper[i] == buf[i]);
        }
    }
    assert(painted(buf, op, img, x, y) =~= both);
}

/// Classifies `img` with its top-left corner at `(x, y)`.
pub fn classify(img: &Image, x: i16, y: i16) -> (r: Placement)
    ensures
        r == placement(img.width as int, img.height as int, x as int, y as int),
{
    if y > 63 || x > 127 || x + (img.width as i16) <= 0 || y + (img.height as i16) <= 0 {
        Placement::OffScreen
    } else if x == 0 && y == 0 && img.width == 128 && img.height == 64 {
        Placement::FullScreen
    } else if img.height == 8 && y >= 0 && y % 8 == 0 {
        Placement::Aligned
    } else if img.height == 8 {
        Placement::Misaligned
    } else {
        Placement::Unsupported
    }
}

impl FrameBuffer {
    /// Merges `len` bytes of `src`, starting at `src_index` and each moved by
    /// `shift` bit positions, into the store from `dest_index` on.
    fn slice_paint(
        &mut self,
        op: Op,
        src: &[u8],
        shift: i16,
        dest_index: usize,
        src_index: usize,
        len: usize,
    )
        requires
            -8 < shift < 8,
            dest_index + len <= 1024,
            src_index + len <= src@.len(),
            forall|i: int|
                dest_index <= i < dest_index + len ==> old(self).dirty().covers(#[trigger] (i / 128)),
        ensures
            final(self)@ == Seq::new(
                1024,
                |i: int|
                    if dest_index <= i < dest_index + len {
                        op.merged(
                            old(self)@[i],
                            shifted(src@[src_index + (i - dest_index)], shift as int),
                        )
                    } else {
                        old(self)@[i]
                    },
            ),
            final(self).dirty() == old(self).dirty(),
            final(self).flushed() == old(self).flushed(),
    {
        proof {
            self.lemma_len();
        }
        let ghost before = self@;
        let src_len: usize = src.len();
        let mut k: usize = 0;
        if shift == 0 {
            while k < len
                invariant
                    shift == 0,
                    k <= len,
                    dest_index + len <= 1024,
                    src_len == src@.len(),
                    src_index + len <= src_len,
                    before.len() == 1024,
                    self@.len() == 1024,
                    self.dirty() == old(self).dirty(),
                    self.flushed() == old(self).flushed(),
                    forall|i: int|
                        dest_index <= i < dest_index + len ==> self.dirty().covers(
                            #[trigger] (i / 128),
                        ),
                    forall|i: int|
                        0 <= i < 1024 ==> self@[i] == if dest_index <= i < dest_index + k {
                            op.merged(before[i], src@[src_index + (i - dest_index)])
                        } else {
                            before[i]
                        },
                decreases len - k,
            {
                let mut dest: u8 = self.get(dest_index + k);
                op.op(&mut dest, src[src_index + k]);
                assert(self.dirty().covers((dest_index + k) / 128));
                self.put(dest_index + k, dest);
                k += 1;
            }
        } else {
            while k < len
                invariant
                    shift != 0,
                    -8 < shift < 8,
                    k <= len,
                    dest_index + len <= 1024,
                    src_len == src@.len(),
                    src_index + len <= src_len,
                    before.len() == 1024,
                    self@.len() == 1024,
                    self.dirty() == old(self).dirty(),
                    self.flushed() == old(self).flushed(),
                    forall|i: int|
                        dest_index <= i < dest_index + len ==> self.dirty().covers(
                            #[trigger] (i / 128),
                        ),
                    forall|i: int|
                        0 <= i < 1024 ==> self@[i] == if dest_index <= i < dest_index + k {
                            op.merged(
                                before[i],
                                shifted(src@[src_index + (i - dest_index)], shift as int),
                            )
                        } else {
                            before[i]
                        },
                decreases len - k,
            {
                let s: u8 = src[src_index + k];
                let moved: u8 = if shift > 0 {
                    s >> (shift as u32)
                } else {
                    s << ((-shift) as u32)
                };
                let mut dest: u8 = self.get(dest_index + k);
                op.op(&mut dest, moved);
                assert(self.dirty().covers((dest_index + k) / 128));
                self.put(dest_index + k, dest);
                k += 1;
            }
        }
        assert(self@ =~= Seq::new(
            1024,
            |i: int|
                if dest_index <= i < dest_index + len {
                    op.merged(before[i], shifted(src@[src_index + (i - dest_index)], shift as int))
                } else {
                    before[i]
                },
        ));
    }

    /// Merges an image that covers the panel exactly into the whole store.
    fn paint_full(&mut self, op: Op, img: &Image)
        requires
            img.wf(),
            img.width == 128,
            img.height == 64,
        ensures
            final(self)@ == painted(old(self)@, op, *img, 0, 0),
            final(self).dirty() == DirtyRange::all(),
            final(self).flushed() == old(self).flushed(),
    {
        proof {
            self.lemma_len();
        }
        self.invalidate();
        self.slice_paint(op, img.data, 0, 0, 0, 1024);
        assert(self@ =~= painted(old(self)@, op, *img, 0, 0));
    }

    /// Merges a one-page image at column `x` into `page`, clipped to the
    /// panel's columns, each source byte moved by `shift` bit positions.
    fn paint_page(&mut self, op: Op, img: &Image, x: i16, page: u8, shift: i16)
        requires
            img.wf(),
            img.height == 8,
            page <= 7,
            -8 < shift < 8,
            x <= 127,
            x + img.width > 0,
        ensures
            final(self)@ == page_painted(old(self)@, op, *img, x as int, page as int, shift as int),
            final(self).dirty() == old(self).dirty().marked(page),
            final(self).flushed() == old(self).flushed(),
    {
        let xmin: i16 = if x < 0 {
            0
        } else {
            x
        };
        let xmax: i16 = if x + (img.width as i16) > 128 {
            128
        } else {
            x + (img.width as i16)
        };
        let img_start_x: usize = if x < 0 {
            (-x) as usize
        } else {
            0
        };
        let row_offset: usize = (page as usize) * 128;
        let start_index: usize = row_offset + (xmin as usize);
        let len: usize = (xmax - xmin) as usize;
        proof {
            self.lemma_len();
            use_type_invariant(&*self);
            self.lemma_clean_pages_unchanged();
            self.dirty().lemma_marked(page);
            assert(img.data@.len() == img.width * 1);
        }
        self.mark_dirty(page);
        self.slice_paint(op, img.data, shift, start_index, img_start_x, len);
        proof {
            let want = page_painted(old(self)@, op, *img, x as int, page as int, shift as int);
            assert forall|i: int| 0 <= i < 1024 implies self@[i] == want[i] by {
                if start_index <= i < start_index + len {
                    assert(i / 128 == page as int);
                    assert(i % 128 == i - row_offset);
                    assert(img_start_x + (i - start_index) == i % 128 - x);
                } else if i / 128 == page as int {
                    assert(i % 128 == i - row_offset);
                }
            }
            assert(self@ =~= want);
        }
    }

    /// Merges a one-page image at column `x` into page `row`, clipped to the
    /// panel's columns.
    fn paint_onerow(&mut self, op: Op, img: &Image, x: i16, row: u8)
        requires
            img.wf(),
            img.height == 8,
            row <= 7,
            x <= 127,
            x + img.width > 0,
        ensures
            final(self)@ == page_painted(old(self)@, op, *img, x as int, row as int, 0),
            final(self).dirty() == old(self).dirty().marked(row),
            final(self).flushed() == old(self).flushed(),
    {
        self.paint_page(op, img, x, row, 0);
    }

    /// Merges a one-page image whose top row `y` lies between two page
    /// boundaries: its upper part goes to the page that holds `y`, its lower
    /// part to the page below. A part that falls outside the panel is dropped.
    fn paint_onerow_misaligned(&mut self, op: Op, img: &Image, x: i16, y: i16)
        requires
            img.wf(),
            img.height == 8,
            x <= 127,
            x + img.width > 0,
            -8 < y <= 63,
            y % 8 != 0,
        ensures
            final(self)@ == page_painted(
                page_painted(old(self)@, op, *img, x as int, first_row(y as int), rem(y as int)),
                op,
                *img,
                x as int,
                first_row(y as int) + 1,
                rem(y as int) - 8,
            ),
            final(self).dirty() == old(self).dirty().marked_if_visible(
                first_row(y as int),
            ).marked_if_visible(first_row(y as int) + 1),
            final(self).flushed() == old(self).flushed(),
    {
        let first_row: i16 = if y < 0 {
            -1
        } else {
            y / 8
        };
        let rem: i16 = (y + 8) % 8;
        proof {
            self.lemma_len();
        }
        if first_row >= 0 {
            self.paint_page(op, img, x, first_row as u8, rem);
        } else {
            assert(self@ =~= page_painted(old(self)@, op, *img, x as int, -1, rem as int));
        }
        let ghost upper = self@;
        if first_row < 7 {
            self.paint_page(op, img, x, (first_row + 1) as u8, rem - 8);
        } else {
            assert(self@ =~= page_painted(upper, op, *img, x as int, 8, rem as int - 8));
        }
    }

    /// Merges `img`, with its top-left corner at `(x, y)`, into the store
    /// using `op`, and reports how the image was placed.
    ///
    /// An image that lies off the panel, or whose shape is not painted, leaves
    /// the store and the dirty span as they were.
    pub fn paint(&mut self, op: Op, img: &Image, x: i16, y: i16) -> (r: Placement)
        requires
            img.wf(),
        ensures
            r == placement(img.width as int, img.height as int, x as int, y as int),
            final(self)@ == painted(old(self)@, op, *img, x as int, y as int),
            final(self).dirty() == dirty_after(
                old(self).dirty(),
                img.width as int,
                img.height as int,
                x as int,
                y as int,
            ),
            final(self).flushed() == old(self).flushed(),
    {
        proof {
            self.lemma_len();
        }
        let r = classify(img, x, y);
        match r {
            Placement::OffScreen | Placement::Unsupported => {
                assert(self@ =~= painted(old(self)@, op, *img, x as int, y as int));
            },
            Placement::FullScreen => {
                self.paint_full(op, img);
            },
            Placement::Aligned => {
                proof {
                    lemma_painted_aligned(old(self)@, op, *img, x as int, y as int);
                }
                self.paint_onerow(op, img, x, (y / 8) as u8);
            },
            Placement::Misaligned => {
                proof {
                    lemma_painted_misaligned(old(self)@, op, *img, x as int, y as int);
                }
                self.paint_onerow_misaligned(op, img, x, y);
            },
        }
        r
    }

    /// Paints `img` at `(x, y)`, replacing what was there.
    pub fn draw(&mut self, img: &Image, x: i16, y: i16) -> (r: Placement)
        requires
            img.wf(),
        ensures
            r == placement(img.width as int, img.height as int, x as int, y as int),
            final(self)@ == painted(old(self)@, Op::Replace, *img, x as int, y as int),
            final(self).dirty() == dirty_after(
                old(self).dirty(),
                img.width as int,
                img.height as int,
                x as int,
                y as int,
            ),
            final(self).flushed() == old(self).flushed(),
    {
        self.paint(Op::Replace, img, x, y)
    }

    /// Paints `img` at `(x, y)` on top of what is there: lit pixels of the
    /// image are switched on, all others are kept.
    pub fn blend(&mut self, img: &Image, x: i16, y: i16) -> (r: Placement)
        requires
            img.wf(),
        ensures
            r == placement(img.width as int, img.height as int, x as int, y as int),
            final(self)@ == painted(old(self)@, Op::Over, *img, x as int, y as int),
            final(self).dirty() == dirty_after(
                old(self).dirty(),
                img.width as int,
                img.height as int,
                x as int,
                y as int,
            ),
            final(self).flushed() == old(self).flushed(),
    {
        self.paint(Op::Over, img, x, y)
    }

    /// Erases `img` at `(x, y)`: lit pixels of the image are switched off,
    /// all others are kept.
    pub fn clear_image(&mut self, img: &Image, x: i16, y: i16) -> (r: Placement)
        requires
            img.wf(),
        ensures
            r == placement(img.width as int, img.height as int, x as int, y as int),
            final(self)@ == painted(old(self)@, Op::Clear, *img, x as int, y as int),
            final(self).dirty() == dirty_after(
                old(self).dirty(),
                img.width as int,
                img.height as int,
                x as int,
                y as int,
            ),
            final(self).flushed() == old(self).flushed(),
    {
        self.paint(Op::Clear, img, x, y)
    }
}

} // verus!
