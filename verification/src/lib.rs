//! An asynchronous, multi-sink logging pipeline.
//!
//! Producers build message envelopes through a [`logger::Logger`] handle and
//! hand them to a channel; a single consumer takes them off the channel and,
//! for each, asks this library where the line goes, what it reads, and whether
//! the console rate limit admits it now.

pub mod enums;
pub mod message;
pub mod timestamp;
pub mod format;
pub mod route;
pub mod rate;
pub mod consumer;
pub mod logger;
