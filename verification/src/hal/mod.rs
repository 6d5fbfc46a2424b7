//! Hardware abstraction.

pub mod nrf51822;
pub mod pin;
