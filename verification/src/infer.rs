//! Inference: from content to the most likely type identifier.
pub mod from_buffer;
pub mod from_path;
