//! A menu-driven client for a private HTTP API: it loads an account record,
//! maps menu choices to authenticated GET requests, and lays out the JSON
//! responses as lines of text. Sending requests and reading input are left
//! to the caller.

pub mod credentials;
pub mod format;
pub mod json;
pub mod laws;
pub mod menu;
