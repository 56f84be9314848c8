//! An in-process request pipeline: typed arguments are extracted from a
//! request, handed to a user function, and the function's output is turned
//! into a response. Each of the two wrappers runs as a two-stage state
//! machine whose decisions are verified here; the futures that feed it are
//! polled by the caller.

pub mod extract;
pub mod factory;
pub mod handler;
pub mod message;
pub mod progress;
