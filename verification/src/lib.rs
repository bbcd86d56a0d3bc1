//! Verified core of the worker that turns repository mutations into `jj`
//! command-line invocations.

pub mod cli_executor;
pub mod hunk;
pub mod messages;
pub mod mutations;
pub mod mutations_cli;
pub mod plan_laws;
pub mod protocol;
pub mod text;
