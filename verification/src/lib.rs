//! Core of a table-driven test facility: runs a test body once per parameter
//! value, captures each case's diagnostic output, and renders a deterministic
//! aggregated report with per-case detail for failures.

pub mod digits;
pub mod executor;
pub mod report;
pub mod sink;
pub mod style;
