//! The part of a file that detection looks at.
//!
//! Reading a file is left to the caller, who reports what the read gave.
//! However much was read, only a bounded prefix of it takes part in
//! detection.
use vstd::prelude::*;
use vstd::slice::slice_subrange;

verus! {

/// How many leading bytes of a file take part in detection.
pub const SCAN_LIMIT: usize = 2048;

/// The part of a file's content that detection looks at: all of it when it is
/// no longer than [`SCAN_LIMIT`], its first [`SCAN_LIMIT`] bytes otherwise.
pub open spec fn scan_window(content: Seq<u8>) -> Seq<u8> {
    if content.len() <= SCAN_LIMIT {
        content
    } else {
        content.subrange(0, SCAN_LIMIT as int)
    }
}

/// What reading a file gave, as a mathematical value: nothing when the file
/// could not be opened or read or is not a regular file, its bytes otherwise.
pub open spec fn read_outcome(content: Option<Vec<u8>>) -> Option<Seq<u8>> {
    match content {
        None => None,
        Some(bytes) => Some(bytes@),
    }
}

/// The leading bytes of `content` that detection looks at.
pub fn leading_bytes(content: &[u8]) -> (window: &[u8])
    ensures
        window@ == scan_window(content@),
{
    if content.len() <= SCAN_LIMIT {
        content
    } else {
        slice_subrange(content, 0, SCAN_LIMIT)
    }
}

/// The scan window is a prefix of the content, as long as the content up to
/// [`SCAN_LIMIT`] bytes, and taking it twice changes nothing.
pub proof fn lemma_scan_window_is_bounded_prefix(content: Seq<u8>)
    ensures
        scan_window(content).len() == if content.len() <= SCAN_LIMIT {
            content.len()
        } else {
            SCAN_LIMIT as nat
        },
        scan_window(content).is_prefix_of(content),
        scan_window(scan_window(content)) == scan_window(content),
{
}

} // verus!
