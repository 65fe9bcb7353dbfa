//! Verified core of a coffee-level telemetry pipeline.
//!
//! A background acquisition loop reads weight telemetry lines from a serial
//! device, decodes and trims each line, extracts the first run of decimal
//! digits as a weight in grams, classifies the weight into a qualitative
//! band, and appends a timestamped audit record. A frame-paced bridge hands
//! the latest classified value to a presentation loop without ever blocking
//! it beyond its remaining per-frame budget, falling back to the last-known
//! value on timeout.
//!
//! Everything in this crate is verified; the device I/O, the log file and
//! the rendering surface live outside it.

pub mod acquire;
pub mod audit;
pub mod bridge;
pub mod clock;
pub mod decode;
pub mod event;
pub mod level;
pub mod line;
pub mod textures;
pub mod timefmt;
pub mod weight;
