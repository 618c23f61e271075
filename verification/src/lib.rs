//! Host-side job pipeline of a remote compile-and-run service.
//!
//! A client submits one source file; the host compiles it inside a scratch
//! directory of its own, runs the binary, streams tagged output chunks back
//! and removes the directory again. This crate holds the decisions of that
//! pipeline: which directory a job owns, how the compiler is invoked, which
//! chunks are delivered in which order, and when the directory is removed.
//! Performing the operations (file system, child processes, the response
//! channel) is left to the caller, who feeds each result back as an event.

pub mod chunk;
pub mod workspace;
pub mod process;
pub mod compile;
pub mod execute;
pub mod multiplexer;
pub mod job;
pub mod pipeline;
pub mod host;
pub mod trace;
