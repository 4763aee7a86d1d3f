//! Content fingerprints: a truncated cryptographic digest rendered as a
//! fixed-width hexadecimal string.  A fingerprint is deterministic, so it
//! serves both as a stable directory name derived from a document path and
//! as a dedup key derived from document content.  Because it is truncated
//! it is not collision-free at scale and is never used to name a blob file.

use vstd::prelude::*;
use sha2::Digest;

verus! {

use vstd::utf8::encode_utf8;

/// The 32-byte SHA-256 digest of a byte sequence, named but not defined:
/// the trusted wrapper below is the only source of values for it.
pub uninterp spec fn sha256_of(bytes: Seq<u8>) -> Seq<u8>;

/// Relies on sha2::Sha256 (via the Digest trait): a 32-byte digest that is
/// a function of the input bytes alone.
#[verifier::external_body]
fn sha256(bytes: &[u8]) -> (r: Vec<u8>)
    ensures
        r@ == sha256_of(bytes@),
        r@.len() == 32,
{
    sha2::Sha256::digest(bytes).to_vec()
}

/// The sixteen lowercase hexadecimal digits, in value order.
pub open spec fn hex_digits() -> Seq<char> {
    seq!['0', '1', '2', '3', '4', '5', '6', '7', '8', '9', 'a', 'b', 'c', 'd', 'e', 'f']
}

/// Lowercase hexadecimal rendering of a byte sequence: two digits per byte,
/// high nibble first.
pub open spec fn hex_of(bytes: Seq<u8>) -> Seq<char>
    decreases bytes.len(),
{
    if bytes.len() == 0 {
        Seq::empty()
    } else {
        seq![
            hex_digits()[(bytes[0] >> 4) as int],
            hex_digits()[(bytes[0] & 0x0f) as int],
        ] + hex_of(bytes.drop_first())
    }
}

pub proof fn lemma_hex_of_len(bytes: Seq<u8>)
    ensures
        hex_of(bytes).len() == 2 * bytes.len(),
    decreases bytes.len(),
{
    if bytes.len() > 0 {
        lemma_hex_of_len(bytes.drop_first());
    }
}

/// Relies on hex::encode: lowercase hexadecimal, two digits per byte, high
/// nibble first.
#[verifier::external_body]
fn hex_encode(bytes: &[u8]) -> (r: String)
    ensures
        r@ == hex_of(bytes@),
{
    hex::encode(bytes)
}

/// The fingerprint of a character sequence: the first 8 bytes of the
/// SHA-256 digest of its UTF-8 encoding, in lowercase hex (16 characters).
pub open spec fn fingerprint_of(s: Seq<char>) -> Seq<char> {
    hex_of(sha256_of(encode_utf8(s)).take(8))
}

pub proof fn lemma_fingerprint_len(s: Seq<char>)
    requires
        sha256_of(encode_utf8(s)).len() == 32,
    ensures
        fingerprint_of(s).len() == 16,
{
    lemma_hex_of_len(sha256_of(encode_utf8(s)).take(8));
}

/// Fingerprint of an arbitrary string.
fn fingerprint(s: &str) -> (r: String)
    ensures
        r@ == fingerprint_of(s@),
        r@.len() == 16,
{
    let digest = sha256(s.as_bytes());
    let mut prefix = digest;
    prefix.truncate(8);
    proof {
        assert(prefix@ =~= sha256_of(encode_utf8(s@)).take(8));
        lemma_fingerprint_len(s@);
    }
    hex_encode(prefix.as_slice())
}

/// Stable directory-name fingerprint of a document path.
pub fn document_hash(path: &str) -> (r: String)
    ensures
        r@ == fingerprint_of(path@),
        r@.len() == 16,
{
    fingerprint(path)
}

/// Dedup-key fingerprint of document content.  Truncation makes collisions
/// possible, so this key only ever suppresses a save that already looks
/// identical; it never names a stored blob.
pub fn content_hash(content: &str) -> (r: String)
    ensures
        r@ == fingerprint_of(content@),
        r@.len() == 16,
{
    fingerprint(content)
}

} // verus!
