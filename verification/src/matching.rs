//! Matching: whether content is consistent with a claimed type identifier.
pub mod from_buffer;
pub mod from_path;
