//! Playlist aggregation: a playlist catalog whose member video ids are
//! resolved into full video records by a separate video-lookup service,
//! tolerating individual lookup failures.
//!
//! The crate holds the catalogs, the data model, and the fan-out result
//! assembly; the HTTP servers and the outbound HTTP client live outside it
//! and hand plain values in and out.

pub mod model;
pub mod playlist;
pub mod video;
