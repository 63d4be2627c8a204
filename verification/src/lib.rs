//! Planning and manifest introspection for vendoring a project's
//! dependencies: building the argument lists for the external build tool,
//! deciding where the compressed vendor archive goes, and reading top-level
//! keys out of a manifest.

pub mod archive;
pub mod command;
pub mod manifest;
