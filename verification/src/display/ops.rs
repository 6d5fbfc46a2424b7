//! Per-byte pixel merge operators.

use vstd::prelude::*;

verus! {

/// How a source byte is merged into a destination byte.
///
/// Each byte holds eight vertically stacked pixels; an operator acts on every
/// bit position independently and never looks at neighbouring bytes.
#[derive(Clone, Copy, Debug, PartialEq, Eq, Structural)]
pub enum Op {
    /// The source replaces the destination.
    Replace,
    /// Pixels lit in the source are switched off in the destination.
    Clear,
    /// Pixels lit in the source are switched on in the destination.
    Over,
}

impl Op {
    /// The merged byte.
    pub open spec fn merged(self, dest: u8, src: u8) -> u8 {
        match self {
            Op::Replace => src,
            Op::Clear => dest & !src,
            Op::Over => dest | src,
        }
    }

    /// Merges `src` into `dest`.
    pub fn op(self, dest: &mut u8, src: u8)
        ensures
            *final(dest) == self.merged(*old(dest), src),
    {
        match self {
            Op::Replace => {
                *dest = src;
            },
            Op::Clear => {
                *dest = *dest & !src;
            },
            Op::Over => {
                *dest = *dest | src;
            },
        }
    }
}

} // verus!
