//! Core logic of a real-time video-frame engine: it negotiates pixel formats
//! and frame geometry with neighbouring pipeline stages, converts pixels
//! between negotiated layouts, paces frame production without cumulative
//! drift, exchanges completed surfaces with a consumer through a small swap
//! chain, and serializes all rendering behind a worker state machine.
//!
//! The engine itself performs no I/O and owns no GPU: every decision it makes
//! is a function from plain values to plain values, so a host can drive it
//! from its own threads, channels and graphics context.

pub mod error;
pub mod fill;
pub mod format;
pub mod negotiate;
pub mod pacer;
pub mod swapchain;
pub mod worker;
pub mod facade;
pub mod transform;
