//! Bare-metal support for the nRF51822 and a compositing engine for a
//! page-addressed monochrome display.
//!
//! * [`display`] keeps the pixels of a 128x64 panel in a frame store, paints
//!   images and numbers into it, tracks which pages changed, and flushes
//!   exactly those pages to the panel controller.
//! * [`hal`] drives the peripherals of the chip. A driver writes down, as a
//!   script of register accesses, what an operation does to the hardware;
//!   running the script is left to the owner of the hardware.
//! * [`platformtree`] describes a platform as a tree of nodes with
//!   attributes.

pub mod display;
pub mod hal;
pub mod platformtree;
