//! Environment convergence for an AI code-review CLI.
//!
//! Before any request runs, every external dependency the tool needs (the
//! container runtime, the model artifact, the local inference server, the
//! cloud API credential) is checked and, with the user's confirmation,
//! brought into a working state; an explicit stop command tears the local
//! server down again.  This crate holds the decision logic of that
//! subsystem: what to probe, when to prompt, when to install, how a partial
//! download is resumed, how the health poll is bounded, and how the pipeline
//! short-circuits on failure.  The surrounding process does the actual I/O
//! and feeds every observation back in as a plain value.

pub mod artifact;
pub mod config;
pub mod ensure;
pub mod gpt;
pub mod pipeline;
pub mod resource;
pub mod runtime;
pub mod server;
