//! Configuration values for a command-line tool, with `$NAME` placeholders in
//! the path and mirror settings resolved against an environment.

pub mod config;
pub mod environment;
pub mod error;
pub mod placeholder;
pub mod substitution;
pub mod text;
