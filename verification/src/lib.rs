//! Time-ordered 64-bit unique identifiers ("snowflakes").
//!
//! A [`SnowflakeGenerator`] packs a millisecond timestamp, a machine
//! identifier, a thread identifier and a per-millisecond counter into one
//! 64-bit value; [`Snowflake`] is the unpacked form of such a value.

pub mod codec;
pub mod generator;

pub use codec::Snowflake;
pub use generator::SnowflakeGenerator;
