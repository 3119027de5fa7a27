pub mod cache;
pub mod cli;
pub mod config;
pub mod error;
pub mod file_ops;
pub mod generator;
pub mod paths;
pub mod resolver;
pub mod template;
pub mod text;

pub use error::TestsmithError;
pub use file_ops::FileSystem;
