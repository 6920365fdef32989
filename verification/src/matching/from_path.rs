//! Type matching over the content of a file.
use vstd::prelude::*;
use crate::detect::{check_claim, claim_matches};
use crate::scan::{leading_bytes, read_outcome, scan_window, SCAN_LIMIT};

verus! {

/// A pending check of the file at a path against a claimed type identifier.
///
/// The task only names the file. Opening and reading it is the caller's
/// part; what was read is handed to [`MatchPath::compute`].
pub struct MatchPath {
    path: String,
    mime_type: String,
}

/// Whether a file is consistent with `claim`, given what reading it gave:
/// an unreadable file matches nothing, a readable one is judged by its
/// leading bytes.
pub open spec fn file_matches(claim: Seq<char>, content: Option<Seq<u8>>) -> bool {
    match content {
        None => false,
        Some(bytes) => claim_matches(claim, scan_window(bytes)),
    }
}

impl MatchPath {
    /// The path the task was made for.
    pub closed spec fn location(&self) -> Seq<char> {
        self.path@
    }

    /// The claimed type identifier.
    pub closed spec fn claim(&self) -> Seq<char> {
        self.mime_type@
    }

    /// The path of the file to read.
    pub fn path(&self) -> (path: &str)
        ensures
            path@ == self.location(),
    {
        self.path.as_str()
    }

    /// The claimed type identifier.
    pub fn mime_type(&self) -> (claim: &str)
        ensures
            claim@ == self.claim(),
    {
        self.mime_type.as_str()
    }

    /// First phase, given what reading the file gave: `None` when the file
    /// could not be opened or read or is not a regular file, its content
    /// otherwise.
    ///
    /// An unreadable file is a mismatch, not an error. The task is left as
    /// it was.
    pub fn compute(&mut self, content: Option<Vec<u8>>) -> (output: bool)
        ensures
            *final(self) == *old(self),
            output == file_matches(old(self).claim(), read_outcome(content)),
    {
        match content {
            None => false,
            Some(bytes) => check_claim(self.mime_type.as_str(), leading_bytes(bytes.as_slice())),
        }
    }

    /// Second phase: the verdict is handed to the caller as it is.
    pub fn resolve(&mut self, output: bool) -> (verdict: bool)
        ensures
            *final(self) == *old(self),
            verdict == output,
    {
        output
    }
}

/// Captures a claimed type identifier and the path of the file to test it
/// against.
pub fn match_path(mime_type: String, path: String) -> (task: MatchPath)
    ensures
        task.claim() == mime_type@,
        task.location() == path@,
{
    MatchPath { path, mime_type }
}

/// A file that cannot be read matches no claim.
pub proof fn lemma_unreadable_file_matches_nothing(claim: Seq<char>)
    ensures
        !file_matches(claim, None),
{
}

/// For a file whose whole content fits the scan window, matching the file
/// and matching its content as a buffer agree.
pub proof fn lemma_short_file_matches_as_buffer(claim: Seq<char>, content: Seq<u8>)
    requires
        content.len() <= SCAN_LIMIT,
    ensures
        file_matches(claim, Some(content)) == claim_matches(claim, content),
{
}

/// Only the leading bytes of a file count: two contents with the same scan
/// window match the same claims.
pub proof fn lemma_match_depends_on_window_only(
    claim: Seq<char>,
    first: Seq<u8>,
    second: Seq<u8>,
)
    requires
        scan_window(first) == scan_window(second),
    ensures
        file_matches(claim, Some(first)) == file_matches(claim, Some(second)),
{
}

} // verus!
