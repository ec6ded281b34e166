//! Decision logic of a launcher for the Marksman markdown language server.
//!
//! The host reports its platform and the user's configuration; the library
//! decides which executable to run, drives the steps that make it present
//! on disk, and produces the single notification the host receives.
pub mod laws;
pub mod messages;
pub mod platform;
pub mod resolve;
pub mod session;
pub mod uri;
