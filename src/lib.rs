//! Launcher for a language runtime preloaded with a system image that an
//! installed package locates: input validation, the discovery script, the
//! decoding of its TOML answer and the sequencing of the two runtime processes.
pub mod config;
pub mod error;
pub mod launch;
pub mod validate;
