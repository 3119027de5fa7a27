//! The path-resolution strategies: one per project structure kind.
pub mod maven;
pub mod same_file;
pub mod traits;
