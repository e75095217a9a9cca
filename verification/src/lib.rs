//! Client-side logic for a cloud object store: session state, the retrying
//! request executor, content hashing and the single-shot and chunked upload
//! paths. Network and file access are left to the caller, which performs the
//! actions these state machines ask for and reports what came back.

pub mod api;
pub mod config;
pub mod error;
pub mod executor;
pub mod hasher;
pub mod media;
pub mod parts;
pub mod plan;
pub mod progress;
pub mod upload;
