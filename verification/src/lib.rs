//! Compression-format detection and Iceberg predicate pushdown, with
//! machine-checked contracts.

pub mod compress_algorithms;
pub mod iceberg_expr;
pub mod remote_expr;
pub mod path;
pub mod predicate;
pub mod text;
