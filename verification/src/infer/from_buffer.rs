//! Type inference over bytes held in memory.
use vstd::prelude::*;
use crate::detect::{
    claim_matches, one_byte_per_char, redirected, redirected_signature, sniff,
};

verus! {

/// A pending inference over a byte buffer.
///
/// The task owns its bytes from the moment it is made until it is dropped,
/// and neither phase changes them.
pub struct InferFromBuffer {
    bytes: Vec<u8>,
}

impl View for InferFromBuffer {
    type V = Seq<u8>;

    /// The bytes the task was made for.
    closed spec fn view(&self) -> Seq<u8> {
        self.bytes@
    }
}

impl InferFromBuffer {
    /// The bytes the task was made for.
    pub fn bytes(&self) -> (bytes: &[u8])
        ensures
            bytes@ == self@,
    {
        self.bytes.as_slice()
    }

    /// First phase: asks the detection library for the type of the bytes.
    ///
    /// Always yields an identifier: content that no specific rule recognises
    /// is reported under the library's generic fallback name. The identifier
    /// is never empty and has one byte per character. Matching the same
    /// bytes against it succeeds, unless it is one of the two [`redirected`]
    /// identifiers; the bytes then carry that identifier's signature. The
    /// task is left as it was.
    pub fn compute(&mut self) -> (output: &'static str)
        ensures
            *final(self) == *old(self),
            output@.len() > 0,
            one_byte_per_char(output@),
            !redirected(output@) ==> claim_matches(output@, old(self)@),
            redirected(output@) ==> redirected_signature(output@, old(self)@),
    {
        sniff(self.bytes.as_slice())
    }

    /// Second phase: turns the identifier into the text handed to the caller,
    /// a fresh copy with the same characters.
    pub fn resolve(&mut self, output: &'static str) -> (text: String)
        ensures
            *final(self) == *old(self),
            text@ == output@,
    {
        output.to_owned()
    }
}

/// Captures `bytes` (any length, empty included) in a pending inference.
pub fn infer_from_buffer(bytes: Vec<u8>) -> (task: InferFromBuffer)
    ensures
        task@ == bytes@,
{
    InferFromBuffer { bytes }
}

} // verus!
