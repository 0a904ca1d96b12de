//! Orchestration core for turning one source video into an HLS
//! adaptive-bitrate rendition ladder.
//!
//! The crate decides which renditions to produce, builds the argument lists
//! of the accelerated and the software encode, drives the fallback between
//! them and assembles the master playlist. Running the external tools and
//! touching the file system is left to the caller.

pub mod args;
pub mod decimal;
pub mod job;
pub mod ladder;
pub mod notice;
pub mod orchestrator;
pub mod plan;
pub mod playlist;
pub mod probe;
pub mod scan;
