//! A minimal cooperative task-polling engine.
//!
//! A *deferred computation* is advanced by polling and reports readiness through a
//! wake handle. The combinators in this crate build new computations out of
//! smaller ones, every one of them proved to respect the polling protocol.

pub mod task;
pub mod poll;
pub mod future;
pub mod util;
pub mod join;
pub mod map_err;
pub mod done;
pub mod chain;
pub mod and_then;
pub mod stream;
pub mod into_stream;
pub mod write_all;
pub mod stream_obj;
