//! Turns concrete-syntax-tree nodes for a query language's value literals
//! into typed literal records: strings, booleans, signed integers, signed
//! decimals, and calendar/time values. Source text is preserved verbatim,
//! optional and variant substructure is destructured as the grammar shapes
//! it, and every produced literal carries its source span.

pub mod cst;
pub mod error;
pub mod laws;
pub mod literal;
pub mod value;
