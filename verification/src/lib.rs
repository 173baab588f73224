//! Symbols: the atomic identifiers from which symbolic expressions are built.

pub mod basic;
