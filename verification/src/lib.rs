//! Core of an asynchronous, multi-client local IPC server.
//!
//! One process exposes a named endpoint and accepts an unbounded sequence of
//! client connections; each connection's byte stream is processed
//! independently. This crate holds the verified logic of that server: the
//! receiver abstraction handed one chunk or line at a time, the
//! accept-stream fold over listener generations, the dispatch loop's
//! decisions, the per-client reader steps, and the line-splitting codec.
//! The surrounding runtime (sockets, pipes, task spawning) drives these
//! functions with the events it observes.

pub mod acceptor;
pub mod dispatch;
pub mod lines;
pub mod reader;
pub mod receiver;
pub mod server;
