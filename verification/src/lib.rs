//! Procedural light animations for a spatial arrangement of addressable LEDs.
//!
//! The crate holds the animation framework (named scratch buffers, the driver
//! that sequences an effect over a mounted domain, frame pacing), three
//! concrete effects, and the interactive switcher that hands one domain
//! between drivers. All quantities are fixed-point integers: lengths in
//! millionths of a layout unit, colour channels in millionths of full
//! intensity, time in nanoseconds.

pub mod color;
pub mod error;
pub mod geometry;
pub mod buffers;
pub mod domain;
pub mod chance;
pub mod timing;
pub mod warpspeed;
pub mod comet;
pub mod ripples;
pub mod effect;
pub mod driver;
pub mod app;
pub mod filters;
