//! What holds of painting whatever the image, the position and the store.

use vstd::prelude::*;
use crate::display::blit::{dirty_after, in_columns, painted, placement, Placement};
use crate::display::dirty::DirtyRange;
use crate::display::image::Image;
use crate::display::ops::Op;

verus! {

/// Painting an image that lies wholly off the panel changes neither the store
/// nor the dirty span.
pub proof fn lemma_off_screen_is_noop(
    buf: Seq<u8>,
    dirty: DirtyRange,
    op: Op,
    img: Image,
    x: int,
    y: int,
)
    requires
        buf.len() == 1024,
        y > 63 || x > 127 || x + img.width <= 0 || y + img.height <= 0,
    ensures
        painted(buf, op, img, x, y) == buf,
        dirty_after(dirty, img.width as int, img.height as int, x, y) == dirty,
{
    assert(painted(buf, op, img, x, y) =~= buf);
}

/// Painting an image whose shape is not supported changes neither the store
/// nor the dirty span.
pub proof fn lemma_unsupported_is_noop(
    buf: Seq<u8>,
    dirty: DirtyRange,
    op: Op,
    img: Image,
    x: int,
    y: int,
)
    requires
        buf.len() == 1024,
        placement(img.width as int, img.height as int, x, y) == Placement::Unsupported,
    ensures
        painted(buf, op, img, x, y) == buf,
        dirty_after(dirty, img.width as int, img.height as int, x, y) == dirty,
{
    assert(painted(buf, op, img, x, y) =~= buf);
}

/// Drawing a 128x64 image at the origin makes the store equal to the image
/// data, byte for byte, and marks all eight pages dirty.
pub proof fn lemma_full_screen_draw_is_exact(buf: Seq<u8>, dirty: DirtyRange, img: Image)
    requires
        buf.len() == 1024,
        img.wf(),
        img.width == 128,
        img.height == 64,
    ensures
        painted(buf, Op::Replace, img, 0, 0) == img.data@,
        dirty_after(dirty, 128, 64, 0, 0) == DirtyRange::all(),
{
    assert(painted(buf, Op::Replace, img, 0, 0) =~= img.data@);
}

/// Painting a one-page image on the boundary of page `row` touches only that
/// page, and there only the columns that the image covers: every other byte
/// keeps its value. A drawn byte is the image byte of its column.
pub proof fn lemma_aligned_paint_is_local(
    buf: Seq<u8>,
    op: Op,
    img: Image,
    x: int,
    row: int,
    index: int,
)
    requires
        buf.len() == 1024,
        img.height == 8,
        0 <= row <= 7,
        0 <= index < 1024,
    ensures
        !(index / 128 == row && in_columns(img.width as int, x, index % 128)) ==> painted(
            buf,
            op,
            img,
            x,
            8 * row,
        )[index] == buf[index],
        index / 128 == row && in_columns(img.width as int, x, index % 128) ==> painted(
            buf,
            Op::Replace,
            img,
            x,
            8 * row,
        )[index] == img.data@[index % 128 - x],
{
}

/// Drawing the same image at the same place twice gives the store and the
/// dirty span that drawing it once gives.
pub proof fn lemma_draw_is_idempotent(buf: Seq<u8>, dirty: DirtyRange, img: Image, x: int, y: int)
    requires
        buf.len() == 1024,
        dirty.wf(),
    ensures
        painted(painted(buf, Op::Replace, img, x, y), Op::Replace, img, x, y) == painted(
            buf,
            Op::Replace,
            img,
            x,
            y,
        ),
        dirty_after(
            dirty_after(dirty, img.width as int, img.height as int, x, y),
            img.width as int,
            img.height as int,
            x,
            y,
        ) == dirty_after(dirty, img.width as int, img.height as int, x, y),
{
    let once = painted(buf, Op::Replace, img, x, y);
    assert(painted(once, Op::Replace, img, x, y) =~= once);
}

/// Blending never switches a pixel off: every bit that is set before a blend
/// is set after it, whatever is blended and wherever.
pub proof fn lemma_blend_keeps_lit_pixels(buf: Seq<u8>, img: Image, x: int, y: int, index: int)
    requires
        buf.len() == 1024,
        0 <= index < 1024,
    ensures
        painted(buf, Op::Over, img, x, y)[index] & buf[index] == buf[index],
{
    let d = buf[index];
    assert(d & d == d) by (bit_vector);
    assert forall|s: u8| #[trigger] ((d | s) & d) == d by {
        assert((d | s) & d == d) by (bit_vector);
    }
}

/// Erasing an image and then drawing it at the same place gives the store
/// that drawing it alone gives.
pub proof fn lemma_clear_then_draw_is_draw(buf: Seq<u8>, img: Image, x: int, y: int)
    requires
        buf.len() == 1024,
    ensures
        painted(painted(buf, Op::Clear, img, x, y), Op::Replace, img, x, y) == painted(
            buf,
            Op::Replace,
            img,
            x,
            y,
        ),
{
    let cleared = painted(buf, Op::Clear, img, x, y);
    assert(painted(cleared, Op::Replace, img, x, y) =~= painted(buf, Op::Replace, img, x, y));
}

/// Painting marks what it changes: a byte that differs after painting lies on
/// a page that the dirty span covers afterwards. Pages that were covered
/// before stay covered.
pub proof fn lemma_paint_marks_what_it_changes(
    buf: Seq<u8>,
    dirty: DirtyRange,
    op: Op,
    img: Image,
    x: int,
    y: int,
    index: int,
)
    requires
        buf.len() == 1024,
        dirty.wf(),
        0 <= index < 1024,
    ensures
        dirty_after(dirty, img.width as int, img.height as int, x, y).wf(),
        painted(buf, op, img, x, y)[index] != buf[index] ==> dirty_after(
            dirty,
            img.width as int,
            img.height as int,
            x,
            y,
        ).covers(index / 128),
        dirty.covers(index / 128) ==> dirty_after(
            dirty,
            img.width as int,
            img.height as int,
            x,
            y,
        ).covers(index / 128),
{
}

} // verus!
