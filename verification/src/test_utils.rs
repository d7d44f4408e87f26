//! Helpers for exercising the engine over small universes.

pub mod bitset;
