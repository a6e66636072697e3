//! A bridge between a single-threaded, cooperatively scheduled host runtime and
//! a multi-threaded symbol engine.
//!
//! The host can only resume work step by step; it can neither block nor drive a
//! future. This crate holds the decisions of that bridge as plain state
//! machines: every operation takes the current state and what has been
//! observed outside, and answers with the next state and what is to be done.

pub mod failure;
pub mod host;
pub mod logger;
pub mod resolver;
pub mod runtime;
pub mod storage;
pub mod text;
pub mod watcher;
