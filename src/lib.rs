//! A chat bot core: it picks the incoming room messages that ask for work,
//! turns each into a request for the worker, turns each request into a
//! result, and builds the threaded reply for each result.

pub mod bot;
pub mod channel;
pub mod config;
pub mod error;
pub mod laws;
pub mod message;
