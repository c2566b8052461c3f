//! Verified bootstrap logic of the Suwariyomi server: how raw settings become
//! a configuration, how the worker count selects a concurrency topology, what
//! the built-in route table answers, and how the server moves from start-up
//! to serving and to its exit.
//!
//! Everything here works on plain values. Sockets, the asynchronous engine
//! and the command line are driven by the binary around this library, which
//! performs the actions that [`lifecycle`] asks for and reports their outcome.

pub mod config;
pub mod decimal;
pub mod engine;
pub mod lifecycle;
pub mod router;
pub mod state;
pub mod topology;
