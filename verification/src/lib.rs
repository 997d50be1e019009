//! A verified core for a commit-message assistant: it summarizes staged
//! repository changes, renders a deterministic prompt for a text-generation
//! provider, sanitizes the returned text into a commit title and body, and
//! drives the staging / generation / commit pipeline as a state machine.
//!
//! Repository access, network transport, persistence and terminal rendering
//! live outside this crate; the library works on plain values handed in by
//! those layers and states exactly what it computes.

pub mod config;
pub mod error;
pub mod prompt;
pub mod repo;
pub mod sanitize;
pub mod session;
pub mod state;
pub mod status;
pub mod text;
