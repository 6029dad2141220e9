//! Human-readable magnitude formatting.
//!
//! Turns raw unsigned counts into short display strings: byte counts are
//! scaled through `B`, `KiB` and `MiB`; plain counts through no suffix, `K`
//! and `M`. A small adapter module prepares these strings for a structured
//! serializer without doing any serialization itself.

pub mod digits;
pub mod formatting;
pub mod rounding;
pub mod serialize;
