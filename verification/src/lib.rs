//! Error classification and conversion layer for a lexer/parser pipeline.
//!
//! Raw failures surfaced by a grammar-driven parsing engine, and by the
//! interpolated-string sub-parser, are turned into a small, closed,
//! displayable error taxonomy that callers can pattern-match on.

pub mod error;
pub mod location;
pub mod mode;
pub mod token;
