//! Skeleton-content generation, keyed by language and framework.
pub mod java_junit;
pub mod java_junit4;
pub mod registry;
pub mod rust_native;
pub mod traits;
