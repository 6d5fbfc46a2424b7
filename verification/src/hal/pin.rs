//! General-purpose pin vocabulary shared by all chips.

use vstd::prelude::*;

verus! {

/// Logic level of a pin.
#[derive(Clone, Copy, Debug, PartialEq, Eq, Structural)]
pub enum GpioLevel {
    /// The pin reads as logic zero.
    Low,
    /// The pin reads as logic one.
    High,
}

/// Direction of a pin.
#[derive(Clone, Copy, Debug, PartialEq, Eq, Structural)]
pub enum GpioDirection {
    /// The pin senses.
    In,
    /// The pin drives.
    Out,
}

} // verus!
