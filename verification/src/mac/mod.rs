//! The macOS screen-capture backend.
//!
//! The primary path is ScreenCaptureKit ([`crate::screencapturekit`]). If that is
//! unavailable or fails to start, the legacy display stream takes its place, so
//! that older systems keep working. Both surface the same [`Capturer`],
//! [`Display`] and [`PixelBuffer`], so that callers need not know which one is
//! active.
pub mod capturer;
pub mod decimal;
pub mod display;
pub mod laws;

pub use capturer::{Capturer, PixelBuffer};
pub use display::Display;
