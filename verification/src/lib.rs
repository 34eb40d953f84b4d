//! Client-side logic for driving long-running jobs on BigML's REST API:
//! resource identifiers and status codes, the retry engine with its backoff
//! policy, and the bounded-concurrency pipeline that runs one workflow per
//! input. Everything here is pure; the network, the clock and the terminal
//! belong to the program that links this library.

pub mod resource;
pub mod text;
pub mod updatable;
pub mod wait;
pub mod parallel;

pub use wait::WaitOptions;
