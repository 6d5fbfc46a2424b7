//! Compositing engine for a 128x64 one-bit-per-pixel, page-addressed panel.
//!
//! The panel is organised as eight pages of 128 columns. One byte holds the
//! eight vertically stacked pixels of one column within one page; bit `i` is
//! row `i` of that page.

pub mod blit;
pub mod buffer;
pub mod dirty;
pub mod image;
pub mod laws;
pub mod number;
pub mod ops;
pub mod panel;
pub mod pixel;
