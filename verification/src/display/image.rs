//! Immutable image resources.

use vstd::prelude::*;

verus! {

/// A bitmap packed like the frame store: page-major, one byte per column per
/// page band, bit `i` of a byte being row `i` of its band.
pub struct Image<'a> {
    /// `width * (height / 8)` bytes, outer index the page band, inner the column.
    pub data: &'a [u8],
    /// Width in pixels.
    pub width: u8,
    /// Height in pixels.
    pub height: u8,
}

impl<'a> Image<'a> {
    /// The data holds exactly one byte per column per page band.
    pub open spec fn wf(&self) -> bool {
        self.data@.len() == self.width as int * (self.height as int / 8)
    }

    /// Tests whether the data length matches the stated dimensions.
    pub fn is_wf(&self) -> (ok: bool)
        ensures
            ok == self.wf(),
    {
        let bands: usize = (self.height / 8) as usize;
        let columns: usize = self.width as usize;
        assert(columns * bands <= 255 * 31) by (nonlinear_arith)
            requires
                columns <= 255,
                bands <= 31,
        ;
        self.data.len() == columns * bands
    }
}

} // verus!
