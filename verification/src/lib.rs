//! Content-type sniffing tasks.
//!
//! Four independent operations are offered, each as a small task value that
//! captures its inputs, is computed away from the caller's control thread,
//! and is then resolved into the value handed back to the caller:
//!
//! * [`infer_from_buffer`]: the most likely type identifier of some bytes;
//! * [`infer_from_path`]: the same for the leading bytes of a file;
//! * [`match_buffer`]: whether some bytes are consistent with a claimed type;
//! * [`match_path`]: the same for the leading bytes of a file.
//!
//! The heuristics themselves are those of `tree_magic_mini`; the module
//! [`detect`] holds the two calls into it together with what is taken on
//! trust about them. Files are never opened here: the caller reads, and the
//! tasks judge what was read by its leading bytes (module [`scan`]).

pub mod detect;
pub mod scan;
pub mod infer;
pub mod matching;

pub use crate::infer::from_buffer::{infer_from_buffer, InferFromBuffer};
pub use crate::infer::from_path::{infer_from_path, InferFromPath};
pub use crate::matching::from_buffer::{match_buffer, MatchBuffer};
pub use crate::matching::from_path::{match_path, MatchPath};
