//! Type matching over bytes held in memory.
use vstd::prelude::*;
use crate::detect::{check_claim, claim_matches};

verus! {

/// A pending check of a byte buffer against a claimed type identifier.
///
/// The task owns both inputs, and neither phase changes them.
pub struct MatchBuffer {
    bytes: Vec<u8>,
    mime_type: String,
}

impl MatchBuffer {
    /// The bytes under test.
    pub closed spec fn content(&self) -> Seq<u8> {
        self.bytes@
    }

    /// The claimed type identifier.
    pub closed spec fn claim(&self) -> Seq<char> {
        self.mime_type@
    }

    /// What the task resolves to: whether its bytes are consistent with its
    /// claim.
    pub open spec fn outcome(&self) -> bool {
        claim_matches(self.claim(), self.content())
    }

    /// The bytes under test.
    pub fn bytes(&self) -> (bytes: &[u8])
        ensures
            bytes@ == self.content(),
    {
        self.bytes.as_slice()
    }

    /// The claimed type identifier.
    pub fn mime_type(&self) -> (claim: &str)
        ensures
            claim@ == self.claim(),
    {
        self.mime_type.as_str()
    }

    /// First phase: asks the detection library whether the bytes are
    /// consistent with the claim. A claim that the library does not know
    /// gives `false` like any other mismatch. The task is left as it was.
    pub fn compute(&mut self) -> (output: bool)
        ensures
            *final(self) == *old(self),
            output == old(self).outcome(),
    {
        check_claim(self.mime_type.as_str(), self.bytes.as_slice())
    }

    /// Second phase: the verdict is handed to the caller as it is.
    pub fn resolve(&mut self, output: bool) -> (verdict: bool)
        ensures
            *final(self) == *old(self),
            verdict == output,
    {
        output
    }
}

/// Captures a claimed type identifier and the bytes to test it against.
pub fn match_buffer(mime_type: String, bytes: Vec<u8>) -> (task: MatchBuffer)
    ensures
        task.claim() == mime_type@,
        task.content() == bytes@,
{
    MatchBuffer { bytes, mime_type }
}

} // verus!
