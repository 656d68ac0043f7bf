//! Geometry and easing kernel: the part of it that is exact, proved here.
//!
//! `coro` holds the state machine behind the lazy sequence adapter that wraps a
//! cooperative producer: once the producer has finished, the sequence stays ended.

pub mod coro;

pub use coro::{Coro, Resumed};
