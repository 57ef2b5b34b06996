//! A minimal query engine: it interprets a subset of SQL `SELECT`
//! statements against a single flat table whose first row names the
//! columns and whose remaining rows are string fields.
//!
//! The engine compiles a WHERE clause and a SELECT list into small
//! evaluation structures (value accessors, predicates, projections),
//! then drives a single filtering, projecting, limit-bounded pass over
//! the rows. All values are strings; comparisons are exact string
//! comparisons, and ordering is byte-wise lexicographic.
pub mod ast;
pub mod engine;
pub mod filter;
pub mod getter;
pub mod mapper;
pub mod rows;
pub mod text;

pub use rows::from_str;
pub use rows::Columns;
pub use rows::Row;
