//! Supervised command execution on a pseudo-terminal.
//!
//! The crate holds the decisions of a PTY-backed command session: how a
//! master/slave pair is brought up from the raw terminal primitives and what
//! is released when a step fails, who owns which descriptor, how a child is
//! attached to the slave side, what the background tasks do with each read and
//! write, and in which order a session is torn down. The system calls
//! themselves are made by the caller, who reports what each one returned.

pub mod os_error;
pub mod android_pty;
pub mod attach;
pub mod tasks;
pub mod exec_command_session;
pub mod sandbox;
