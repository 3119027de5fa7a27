//! Resolution of language, framework, project root and structure.
pub mod framework;
pub mod framework_detector;
pub mod language;
pub mod project_root;
pub mod structure;
pub mod structure_detector;
