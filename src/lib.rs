//! Installs a package from source: detects which build system a source tree
//! uses, composes the command sequence that builds it, and finds the artifact
//! that the build produced.
pub mod cli;
pub mod detect;
pub mod doc;
pub mod install;
pub mod invoke;
pub mod kind;
pub mod locate;
pub mod manifest;
pub mod text;
