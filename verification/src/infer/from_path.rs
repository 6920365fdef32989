//! Type inference over the content of a file.
use vstd::prelude::*;
use crate::detect::{
    claim_matches, one_byte_per_char, redirected, redirected_signature, sniff,
};
use crate::scan::{leading_bytes, scan_window};

verus! {

/// A pending inference over the file at a path.
///
/// The task only names the file. Opening and reading it is the caller's
/// part; what was read is handed to [`InferFromPath::compute`].
pub struct InferFromPath {
    path: String,
}

impl View for InferFromPath {
    type V = Seq<char>;

    /// The path the task was made for.
    closed spec fn view(&self) -> Seq<char> {
        self.path@
    }
}

impl InferFromPath {
    /// The path of the file to read.
    pub fn path(&self) -> (path: &str)
        ensures
            path@ == self@,
    {
        self.path.as_str()
    }

    /// First phase, given what reading the file gave: `None` when the file
    /// could not be opened or read or is not a regular file, its content
    /// otherwise.
    ///
    /// An unreadable file is a detection miss, not an error. A readable one
    /// always gets an identifier, found from its leading bytes alone. The
    /// identifier is never empty and has one byte per character. Matching
    /// the same leading bytes against it succeeds, unless it is one of the
    /// two [`redirected`] identifiers; the leading bytes then carry that
    /// identifier's signature. The task is left as it was.
    pub fn compute(&mut self, content: Option<Vec<u8>>) -> (output: Option<&'static str>)
        ensures
            *final(self) == *old(self),
            output is None <==> content is None,
            output matches Some(mime) ==> mime@.len() > 0,
            output matches Some(mime) ==> one_byte_per_char(mime@),
            output matches Some(mime) ==> (!redirected(mime@) ==> claim_matches(
                mime@,
                scan_window(content->0@),
            )),
            output matches Some(mime) ==> (redirected(mime@) ==> redirected_signature(
                mime@,
                scan_window(content->0@),
            )),
    {
        match content {
            None => None,
            Some(bytes) => Some(sniff(leading_bytes(bytes.as_slice()))),
        }
    }

    /// Second phase: turns the identifier, where there is one, into the text
    /// handed to the caller, a fresh copy with the same characters. A miss
    /// stays a miss.
    pub fn resolve(&mut self, output: Option<&'static str>) -> (text: Option<String>)
        ensures
            *final(self) == *old(self),
            text is None <==> output is None,
            text matches Some(t) ==> t@ == output->0@,
    {
        match output {
            None => None,
            Some(mime) => Some(mime.to_owned()),
        }
    }
}

/// Captures the path of a file in a pending inference.
pub fn infer_from_path(path: String) -> (task: InferFromPath)
    ensures
        task@ == path@,
{
    InferFromPath { path }
}

} // verus!
