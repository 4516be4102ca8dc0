//! Launcher core of a desktop shell that runs a backend worker process:
//! the stored launcher settings, the choice of the worker executable, the
//! runtime state that the host queries, and the supervisor that drives the
//! worker from spawn through its port handshake to its exit.

pub mod config;
pub mod handshake;
pub mod locator;
pub mod runtime;
pub mod supervisor;
