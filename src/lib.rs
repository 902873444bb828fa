//! Dispatch bridge between a host and the slash commands of a sandboxed extension.
pub mod text;
pub mod error;
pub mod completion;
pub mod output;
pub mod execution;
pub mod command;
