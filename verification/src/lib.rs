//! The control core of a minimal application runtime.
//!
//! A runtime owns the life of a video driver and drives a cooperative loop,
//! one tick at a time, until it is told to stop. This crate holds every
//! decision of that life and performs none of its effects: it says which
//! driver call comes next and what follows from the driver's answers, and the
//! host makes the calls.

pub mod context;
pub mod runtime;
pub mod sys;
pub mod video;
