//! Dispatch and delivery of user-interface commands to a remote editor session.

pub mod command;
pub mod execution;
pub mod dispatch;
pub mod pipeline;
pub mod laws;
pub mod shell;
pub mod queue;
pub mod settings;
