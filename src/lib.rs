//! A sandboxed script-execution host: output capture, code classification,
//! package-specifier handling, package resolution rules and execution history.

pub mod commands;
pub mod execution;
pub mod hello;
pub mod history;
pub mod install;
pub mod json;
pub mod lint;
pub mod output;
pub mod resolver;
pub mod source;
pub mod specifier;

pub use execution::DenoExecutor;
pub use output::ExecutionOutput;
pub use resolver::NpmResolver;
