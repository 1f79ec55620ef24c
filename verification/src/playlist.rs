//! The playlist-aggregation service: a fixed catalog of playlists whose
//! member video ids are resolved through the video-lookup service.

pub mod configuration;
pub mod service;
