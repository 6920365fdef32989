//! The boundary to the type detection library.
//!
//! Everything the tasks know about `tree_magic_mini` is written down here:
//! two calls, and for each the statement that the verifier accepts without
//! proof. The rest of the crate is proved against these statements alone.
use vstd::prelude::*;

verus! {

/// Whether content `bytes` is consistent with the claimed type identifier
/// `claim`, as `tree_magic_mini::match_u8` decides it.
///
/// The decision goes through the detection library's alias table and its
/// per-type magic rules, both compiled into the binary, so it depends on the
/// two arguments and on nothing else.
pub uninterp spec fn claim_matches(claim: Seq<char>, bytes: Seq<u8>) -> bool;

/// Whether every character of `text` fits in one byte, so that the text can
/// be handed on in a single-byte encoding.
pub open spec fn one_byte_per_char(text: Seq<char>) -> bool {
    forall|i: int| 0 <= i < text.len() ==> (#[trigger] text[i] as u32) < 256
}

/// The identifiers that are at once a type that detection can report and an
/// alias of another type.
///
/// A claim is replaced by what it is an alias of before it is judged, so a
/// claim of one of these is judged by the rules of the other type, not by
/// its own. The bundled type database (`tree_magic_db` 3.0.1) has exactly
/// these two: the first stands for `application/pkix-cert`, the second for
/// `application/vnd.oasis.opendocument.database`.
pub open spec fn redirected(mime: Seq<char>) -> bool {
    mime == "application/x-x509-ca-cert"@ || mime == "application/vnd.sun.xml.base"@
}

/// Whether `bytes` holds the characters of `text`, one byte each, from
/// position `offset` on.
pub open spec fn holds_at(bytes: Seq<u8>, offset: int, text: Seq<char>) -> bool {
    &&& offset + text.len() <= bytes.len()
    &&& forall|i: int|
        0 <= i < text.len() ==> (bytes[offset + i] as u32) == (#[trigger] text[i] as u32)
}

/// What the bundled database's own rules for a [`redirected`] identifier ask
/// of the bytes.
///
/// A certificate of the first kind begins with one of two header lines. A
/// database of the second kind is an archive that begins with the archive
/// signature and names its own type in the first entry, at fixed positions.
/// No other identifier has a signature in this sense.
pub open spec fn redirected_signature(mime: Seq<char>, bytes: Seq<u8>) -> bool {
    if mime == "application/x-x509-ca-cert"@ {
        ||| holds_at(bytes, 0, "-----BEGIN CA CERTIFICATE-----"@)
        ||| holds_at(bytes, 0, "-----BEGIN TRUSTED CERTIFICATE-----"@)
    } else if mime == "application/vnd.sun.xml.base"@ {
        &&& holds_at(bytes, 0, "PK\x03\x04"@)
        &&& holds_at(bytes, 30, "mimetype"@)
        &&& holds_at(bytes, 38, "application/vnd.sun.xml.base"@)
    } else {
        false
    }
}

/// Calls `tree_magic_mini::from_u8`.
///
/// Trusted, of every identifier that comes back:
///
/// * It is not empty and all its characters fit in one byte. It is a node of
///   the detection library's type graph, and each of those is either one of
///   the built-in base names or was read from a bracketed header of the
///   bundled magic database, by a parser that rejects an empty name; all of
///   them are plain ASCII.
/// * Unless it is [`redirected`], the bytes match it. The walk over the type
///   graph only reports a type whose own rules accepted the bytes, and
///   `match_u8` applies those same rules to every claim that is not an alias.
/// * Where it is [`redirected`], the bytes carry its
///   [`redirected_signature`]: for the same reason its own rules accepted
///   the bytes, and the function spells those rules out.
///
/// Which identifier it is, is not claimed. Which of several matching sibling
/// types wins depends on the order in which the library walked a hash set
/// while it built its graph, so the same bytes may be reported differently
/// by different processes.
#[verifier::external_body]
pub(crate) fn sniff(bytes: &[u8]) -> (mime: &'static str)
    ensures
        mime@.len() > 0,
        one_byte_per_char(mime@),
        !redirected(mime@) ==> claim_matches(mime@, bytes@),
        redirected(mime@) ==> redirected_signature(mime@, bytes@),
{
    tree_magic_mini::from_u8(bytes)
}

/// Calls `tree_magic_mini::match_u8`.
///
/// Trusted: the answer is [`claim_matches`] of the claim and the bytes.
#[verifier::external_body]
pub(crate) fn check_claim(claim: &str, bytes: &[u8]) -> (ok: bool)
    ensures
        ok == claim_matches(claim@, bytes@),
{
    tree_magic_mini::match_u8(claim, bytes)
}

} // verus!
