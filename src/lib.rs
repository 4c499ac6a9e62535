//! Thumbnail cache for video files: cache keys derived from a video's path,
//! the ordered fallback strategies of the frame-extraction tool, the request
//! state machine that drives a thumbnail request, and cache clean-up reports.

pub mod cache_key;
pub mod strategy;
pub mod encoding;
pub mod job;
pub mod cleanup;
pub mod tool;
