//! Verified core of a bulk file-download utility.
//!
//! The library validates a JSON manifest of remote files into download
//! descriptors, drives each file's download as a verified state machine
//! (allocate, stream, verify), and renders the digest reported for a
//! completed file. The surrounding program supplies the network, the
//! filesystem, and the thread pool, and feeds their outcomes to the
//! state machine as events.

pub mod digest;
pub mod downloader;
pub mod file;
pub mod json;
pub mod task;
pub mod workers;
