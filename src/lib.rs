//! An interpreter for a small expression language over numbers, booleans,
//! functions and sets, with exact rational arithmetic.
pub mod error;
pub mod number;
pub mod data;
pub mod function;
pub mod standardlibrary;
pub mod semantics;
pub mod lists;
pub mod coerce;
pub mod interpreter;
pub mod laws;
