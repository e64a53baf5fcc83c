//! Recursive WGSL shader validation: candidates are discovered by file
//! extension, each one runs through the external parser and semantic
//! validator, every outcome is collected in encounter order, and the
//! report lists successes before failures and yields the exit code.

pub mod decimal;
pub mod errors;
pub mod messages;
pub mod paths;
pub mod report;
pub mod runner;
pub mod validator;
