//! Bootstrap of a PowerShell language server for an editor host: configuration
//! overrides, the default launch command, safe archive extraction and the
//! sequencing of those steps.
pub mod archive;
pub mod bootstrap;
pub mod config;
pub mod json;
pub mod launch;
pub mod request;
pub mod text;
