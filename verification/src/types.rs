//! The validated value types of the manifest pipeline.

pub mod package_version;
pub mod values;
pub mod urls;
pub mod commands;
pub mod prompts;
