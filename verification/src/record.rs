//! The record types that this library decodes.

pub mod loc;

pub use self::loc::{Direction, Position, Size, LOC};
