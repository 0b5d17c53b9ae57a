//! Turning a raw unix timestamp into a human-readable date string.
//!
//! The heart of the crate is a small pipeline: resolve a precision name
//! against a closed set of units, interpret a signed integer token as a
//! count of those units since the epoch, and render the resulting instant
//! under a UTC offset.  Relative-day presets resolve against an injectable
//! clock provider, so nothing here reads the real clock.

pub mod cmd;
pub mod error;
pub mod find;
pub mod precision;
pub mod preset;
pub mod provider;
pub mod render;
pub mod timestamp;
pub mod validate;
