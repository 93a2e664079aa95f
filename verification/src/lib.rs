//! Command-execution and build-configuration core of a Move bytecode CLI.
//!
//! The library covers the uniform command contract with its JSON-shaped
//! result envelope, the artifact-inclusion policy that derives a build
//! configuration, package-option resolution (paths, named addresses,
//! bytecode version), the interactive file-polling dispatcher's decision
//! logic, and gzip helpers for package metadata.

pub mod abort_info;
pub mod address;
pub mod artifacts;
pub mod cli_command;
pub mod cli_config;
pub mod cli_error;
pub mod json;
pub mod move_package_dir;
pub mod move_tool;
pub mod paths;
pub mod result;
pub mod text;
pub mod utils;
pub mod zip;
