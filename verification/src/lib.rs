//! Extraction of the video payload embedded at the tail of a motion photo
//! container: resolving the payload's byte length from the container's
//! metadata directory, deciding where the payload goes, and copying exactly
//! the last bytes of the container.

pub mod config;
pub mod extract;
pub mod metadata;
