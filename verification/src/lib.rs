//! Decoder for one radial of a weather-radar precipitation-rate product.
//!
//! A radial is a single angular sweep of the beam: a bearing, a tilt, an
//! angular width and the precipitation rates measured in the distance bins
//! along it. The decoder reads the record from a big-endian byte buffer,
//! checks every header field against its legal range and hands back the
//! record together with the bytes that follow it.

pub mod binary32;
pub mod cursor;
pub mod error;
pub mod radials;
pub mod scalar;
