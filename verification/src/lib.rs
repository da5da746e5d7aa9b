//! Capability tokens, host arbitration and room teardown for a real-time
//! meeting service.
//!
//! The crate issues short-lived signed tokens that let a participant join a
//! room, decides which joiner becomes the room's host, and sequences the
//! eviction of every participant before a room is deleted.

pub mod clock;
pub mod config;
pub mod grant;
pub mod join;
pub mod json;
pub mod models;
pub mod teardown;
pub mod text;
pub mod token;
