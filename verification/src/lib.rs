//! A login-session client for the greetd display-manager daemon.
//!
//! The crate holds the logic of a greeter: the typestate machine that models
//! the legal order of exchanges with the daemon, the controller that
//! sequences those exchanges into the log-in, cancel and change-user flows,
//! the cache of last used sessions, and the helpers that read the system's
//! user and session lists.  It performs no I/O: every exchange with the
//! daemon is described by a request to send, and completed by the response
//! that came back.
pub mod cache;
pub mod cmdline;
pub mod config;
pub mod constants;
pub mod greetd;
pub mod gui;
pub mod string_map;
pub mod sysutil;
pub mod text;
