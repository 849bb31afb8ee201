//! Verified core of a DSU-style motion streaming service.
//!
//! The library decodes raw HID motion reports, normalizes the readings with
//! an exponential smoothing filter and a deadzone, models the interchangeable
//! motion providers, and encodes wire packets for the streaming loop.
//! All sensor arithmetic is carried out in exact fixed-point integers; the
//! unverified shell around the library converts to floating point only at
//! the display and wire edges.

pub mod decoder;
pub mod error;
pub mod hid;
pub mod normalize;
pub mod packet;
pub mod provider;
pub mod sdl;
pub mod stream;
