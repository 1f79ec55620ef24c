//! The video-lookup service: a fixed catalog of video records, answering
//! single-item retrieval by id.

pub mod configuration;
pub mod service;
