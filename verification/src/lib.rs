//! Common abstraction for SDR sources.
//!
//! Backends that hop over channels share three things: how long they dwell on
//! a channel ([`DwellController`], fed by a [`DwellAdvice`]), the buffers in
//! which they hand samples on ([`PooledIqBuffer`]) and the errors they report
//! ([`SdrError`]).
//!
//! What the crate takes on trust from the standard library and from
//! `crossbeam` is declared in [`mod@time`] and [`pool`]; all else is proved.

pub mod advice;
pub mod buffer;
pub mod dwell;
pub mod error;
pub mod pool;
mod recycler;
pub mod time;

pub use crate::advice::DwellAdvice;
pub use crate::buffer::PooledIqBuffer;
pub use crate::dwell::DwellController;
pub use crate::error::SdrError;
