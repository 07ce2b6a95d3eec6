//! The scalars of the query language that are read from plain values.

pub mod decimal;
pub mod integers;
