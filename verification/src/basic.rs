//! Basic building blocks of symbolic expressions.

pub mod decimal;
pub mod symbol;
pub mod text;
