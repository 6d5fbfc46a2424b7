//! Rendering of unsigned numbers with digit glyphs.
//!
//! A number is rendered as its decimal digit string, one glyph per digit, on
//! one page. Glyphs are drawn, not blended: each replaces what lies under it.

use vstd::prelude::*;
use crate::display::blit::{painted, Placement};
use crate::display::buffer::FrameBuffer;
use crate::display::image::Image;
use crate::display::laws::lemma_off_screen_is_noop;
use crate::display::ops::Op;

verus! {

/// Horizontal distance between neighbouring digits.
pub const DIGIT_WIDTH: u16 = 6;

/// The decimal digits of `value`, least significant first. Zero has none.
pub open spec fn digits_lsf(value: nat) -> Seq<u8>
    decreases value,
{
    if value == 0 {
        Seq::empty()
    } else {
        seq![(value % 10) as u8] + digits_lsf(value / 10)
    }
}

/// The decimal digits of `value`, most significant first. Zero is the single
/// digit 0.
pub open spec fn digits_msf(value: nat) -> Seq<u8> {
    if value == 0 {
        seq![0u8]
    } else {
        digits_lsf(value).reverse()
    }
}

/// Ten glyphs, each well formed and one page tall.
pub open spec fn font_wf(font: Seq<Image>) -> bool {
    &&& font.len() == 10
    &&& forall|d: int| 0 <= d < 10 ==> (#[trigger] font[d]).wf() && font[d].height == 8
}

/// Tests whether `digits` are ten well-formed glyphs of one page height.
pub fn font_is_wf(digits: &[Image; 10]) -> (ok: bool)
    ensures
        ok == font_wf(digits@),
{
    let mut d: usize = 0;
    while d < 10
        invariant
            d <= 10,
            forall|k: int| 0 <= k < d ==> (#[trigger] digits@[k]).wf() && digits@[k].height == 8,
        decreases 10 - d,
    {
        if !digits[d].is_wf() || digits[d].height != 8 {
            return false;
        }
        d += 1;
    }
    true
}

/// The store after drawing the glyphs named by `codes` in order, the first at
/// `(x, y)` and each following one `step` columns further.
pub open spec fn glyphs_painted(
    buf: Seq<u8>,
    font: Seq<Image>,
    codes: Seq<u8>,
    x: int,
    step: int,
    y: int,
) -> Seq<u8>
    decreases codes.len(),
{
    if codes.len() == 0 {
        buf
    } else {
        glyphs_painted(
            painted(buf, Op::Replace, font[codes[0] as int], x, y),
            font,
            codes.drop_first(),
            x + step,
            step,
            y,
        )
    }
}

/// The store after rendering `value` with its last digit ending just left of
/// column `right_x` on page `row`: digits are drawn from the least significant
/// one leftwards.
pub open spec fn num_right_painted(
    buf: Seq<u8>,
    font: Seq<Image>,
    value: nat,
    right_x: int,
    row: int,
) -> Seq<u8> {
    glyphs_painted(buf, font, digits_lsf(value), right_x - 6, -6, 8 * row)
}

/// The store after rendering `value` with its first digit at column `left_x`
/// on page `row`: digits are drawn from the most significant one rightwards.
pub open spec fn num_left_painted(
    buf: Seq<u8>,
    font: Seq<Image>,
    value: nat,
    left_x: int,
    row: int,
) -> Seq<u8> {
    glyphs_painted(buf, font, digits_msf(value), left_x, 6, 8 * row)
}

/// A 32-bit number has at most ten digits.
pub proof fn lemma_digit_count(value: nat)
    requires
        value <= u32::MAX,
    ensures
        digits_lsf(value).len() <= 10,
{
    reveal_with_fuel(digits_lsf, 12);
}

/// Rendered right-aligned, zero draws no glyph at all.
pub proof fn lemma_zero_right_draws_nothing(
    buf: Seq<u8>,
    font: Seq<Image>,
    right_x: int,
    row: int,
)
    ensures
        num_right_painted(buf, font, 0, right_x, row) == buf,
{
}

/// Rendered left-aligned, zero draws exactly one glyph, the digit 0.
pub proof fn lemma_zero_left_draws_one_zero(
    buf: Seq<u8>,
    font: Seq<Image>,
    left_x: int,
    row: int,
)
    ensures
        num_left_painted(buf, font, 0, left_x, row) == painted(
            buf,
            Op::Replace,
            font[0],
            left_x,
            8 * row,
        ),
{
    let codes = seq![0u8];
    assert(codes.drop_first().len() == 0);
    reveal_with_fuel(glyphs_painted, 3);
}

impl FrameBuffer {
    /// Draws the glyph `code` at column `pos` of page `row`. A column right
    /// of the panel draws nothing.
    fn draw_digit(&mut self, digits: &[Image; 10], code: u8, pos: i32, row: u8)
        requires
            font_wf(digits@),
            code < 10,
            row <= 7,
            -32768 <= pos,
            old(self).dirty().wf(),
        ensures
            final(self)@ == painted(
                old(self)@,
                Op::Replace,
                digits@[code as int],
                pos as int,
                8 * row,
            ),
            final(self).dirty() == old(self).dirty() || final(self).dirty() == old(
                self,
            ).dirty().marked(row),
            final(self).flushed() == old(self).flushed(),
    {
        proof {
            self.lemma_len();
        }
        if pos <= 127 {
            let r = self.draw(&digits[code as usize], pos as i16, (row as i16) * 8);
            assert(r == Placement::OffScreen || r == Placement::Aligned);
        } else {
            proof {
                lemma_off_screen_is_noop(
                    self@,
                    self.dirty(),
                    Op::Replace,
                    digits@[code as int],
                    pos as int,
                    8 * row,
                );
            }
        }
    }

    /// Renders `num` right-aligned on page `row`: the last digit ends just
    /// left of column `x`, and each further digit stands one glyph width to
    /// the left of the one before. Zero renders as nothing. The page is
    /// marked dirty in any case.
    pub fn draw_num_right(&mut self, digits: &[Image; 10], num: u32, x: u16, row: u8)
        requires
            font_wf(digits@),
            row <= 7,
        ensures
            final(self)@ == num_right_painted(old(self)@, digits@, num as nat, x as int, row as int),
            final(self).dirty() == old(self).dirty().marked(row),
            final(self).flushed() == old(self).flushed(),
    {
        proof {
            use_type_invariant(&*self);
            self.lemma_clean_pages_unchanged();
            self.dirty().lemma_marked(row);
            lemma_digit_count(num as nat);
        }
        let ghost total = num_right_painted(old(self)@, digits@, num as nat, x as int, row as int);
        let mut rest: u32 = num;
        let mut pos: i32 = x as i32;
        while rest > 0
            invariant
                font_wf(digits@),
                row <= 7,
                old(self).dirty().wf(),
                digits_lsf(num as nat).len() <= 10,
                digits_lsf(rest as nat).len() <= digits_lsf(num as nat).len(),
                pos == x - 6 * (digits_lsf(num as nat).len() - digits_lsf(rest as nat).len()),
                glyphs_painted(self@, digits@, digits_lsf(rest as nat), pos - 6, -6, 8 * row)
                    == total,
                self.dirty() == old(self).dirty() || self.dirty() == old(self).dirty().marked(row),
                self.flushed() == old(self).flushed(),
            decreases rest,
        {
            let code: u8 = (rest % 10) as u8;
            proof {
                assert(digits_lsf(rest as nat).drop_first() =~= digits_lsf(rest as nat / 10));
            }
            rest = rest / 10;
            pos = pos - DIGIT_WIDTH as i32;
            self.draw_digit(digits, code, pos, row);
        }
        self.mark_dirty(row);
    }

    /// Renders `num` left-aligned on page `row`: the first digit stands at
    /// column `x`, and each further digit one glyph width to the right of the
    /// one before. Zero renders as the single digit 0. The page is marked
    /// dirty in any case.
    pub fn draw_num_left(&mut self, digits: &[Image; 10], num: u32, x: u16, row: u8)
        requires
            font_wf(digits@),
            row <= 7,
        ensures
            final(self)@ == num_left_painted(old(self)@, digits@, num as nat, x as int, row as int),
            final(self).dirty() == old(self).dirty().marked(row),
            final(self).flushed() == old(self).flushed(),
    {
        proof {
            use_type_invariant(&*self);
            self.lemma_clean_pages_unchanged();
            self.dirty().lemma_marked(row);
            lemma_digit_count(num as nat);
        }
        let ghost total = num_left_painted(old(self)@, digits@, num as nat, x as int, row as int);
        // Decompose from the right end of a ten-slot buffer.
        let mut slots: [u8; 10] = [0;10];
        let mut start: usize = 10;
        let mut rest: u32 = num;
        while rest > 0
            invariant
                start <= 10,
                digits_lsf(num as nat).len() <= 10,
                digits_lsf(num as nat) == Seq::new((10 - start) as nat, |j: int| slots@[9 - j])
                    + digits_lsf(rest as nat),
                forall|j: int| start <= j < 10 ==> slots@[j] < 10,
                num == 0 ==> slots@[9] == 0,
            decreases rest,
        {
            proof {
                let done = Seq::new((10 - start) as nat, |j: int| slots@[9 - j]);
                assert(digits_lsf(num as nat).len() == done.len() + digits_lsf(rest as nat).len());
                assert(digits_lsf(rest as nat).len() >= 1);
            }
            let ghost before = slots@;
            start = start - 1;
            slots[start] = (rest % 10) as u8;
            proof {
                let done_before = Seq::new((10 - start - 1) as nat, |j: int| before[9 - j]);
                let done = Seq::new((10 - start) as nat, |j: int| slots@[9 - j]);
                assert(done =~= done_before.push((rest % 10) as u8));
                assert(done + digits_lsf(rest as nat / 10) =~= done_before + digits_lsf(
                    rest as nat,
                ));
            }
            rest = rest / 10;
        }
        if start == 10 {
            start = 9;
        }
        let ghost codes = Seq::new((10 - start) as nat, |t: int| slots@[start + t]);
        proof {
            if num == 0 {
                assert(codes =~= digits_msf(0));
            } else {
                let lsf = Seq::new((10 - start) as nat, |j: int| slots@[9 - j]);
                assert(digits_lsf(num as nat) =~= lsf);
                assert(codes =~= lsf.reverse());
            }
        }
        let mut j: usize = start;
        let mut pos: i32 = x as i32;
        while j < 10
            invariant
                font_wf(digits@),
                row <= 7,
                old(self).dirty().wf(),
                start <= j <= 10,
                pos == x + 6 * (j - start),
                forall|k: int| start <= k < 10 ==> slots@[k] < 10,
                glyphs_painted(
                    self@,
                    digits@,
                    Seq::new((10 - j) as nat, |t: int| slots@[j + t]),
                    pos as int,
                    6,
                    8 * row,
                ) == total,
                self.dirty() == old(self).dirty() || self.dirty() == old(self).dirty().marked(row),
                self.flushed() == old(self).flushed(),
            decreases 10 - j,
        {
            proof {
                let here = Seq::new((10 - j) as nat, |t: int| slots@[j + t]);
                let next = Seq::new((10 - j - 1) as nat, |t: int| slots@[j + 1 + t]);
                assert(here.drop_first() =~= next);
            }
            self.draw_digit(digits, slots[j], pos, row);
            pos = pos + DIGIT_WIDTH as i32;
            j = j + 1;
        }
        self.mark_dirty(row);
    }
}

} // verus!
