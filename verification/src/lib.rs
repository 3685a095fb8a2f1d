//! Core of a file-indexing server's thumbnail subsystem: the aspect-preserving
//! scale policy, media-kind classification, the freshness rule for cached
//! thumbnails, the request-coalescing bookkeeping that keeps at most one
//! generation in flight per cache path, the pipeline-driving state machine
//! with its time budget and teardown obligation, and the placeholder fallback
//! applied when generation fails.

pub mod coalesce;
pub mod config;
pub mod error;
pub mod extract;
pub mod fallback;
pub mod fresh;
pub mod listing;
pub mod paths;
pub mod scale;
pub mod text;
pub mod thumbnail;
