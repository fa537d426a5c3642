//! A client for a server-pushed stream of JSON events.

pub mod auth;
pub mod json;
pub mod laws;
pub mod outcome;
pub mod queue;
pub mod streamer;
