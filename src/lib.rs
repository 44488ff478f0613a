//! Client-side pipeline for uploading local media files to an asset server:
//! discovery filtering, per-file identity, request metadata, response
//! classification, a bounded-concurrency scheduler and progress counting.

pub mod text;
pub mod media;
pub mod http;
pub mod identity;
pub mod scheduler;
pub mod progress;
pub mod config;
