//! A line-oriented command shell: commands, the registry that resolves their
//! names, and the decisions of the read-eval loop, with the filesystem and the
//! terminal left to the caller.
pub mod cmd;
pub mod cmd_registry;
pub mod config;
pub mod laws;
pub mod shell;
pub mod text;
