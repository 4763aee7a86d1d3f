//! Compressed snapshot encoding.  A version's content is stored as a
//! gzip-compressed archive of its UTF-8 text; the only property the rest of
//! the library needs is the round trip: decompressing a stored blob yields
//! exactly the text that was compressed into it.

use vstd::prelude::*;
use std::io::{Read, Write};

verus! {

/// What gzip decompression (followed by UTF-8 decoding) returns for a byte
/// sequence: `Some` of the decoded text, or `None` when the bytes are not a
/// valid gzip stream or do not decompress to valid UTF-8.  The result is a
/// function of the bytes alone.
pub uninterp spec fn gunzip_of(bytes: Seq<u8>) -> Option<Seq<char>>;

/// Relies on flate2's GzEncoder at the default compression level: its
/// output, decompressed again, is exactly the input.  Writing into an
/// in-memory buffer cannot fail, so the encoder's I/O errors cannot occur.
#[verifier::external_body]
pub(crate) fn gzip_compress(content: &str) -> (r: Vec<u8>)
    ensures
        gunzip_of(r@) == Some(content@),
{
    let mut encoder = flate2::write::GzEncoder::new(Vec::new(), flate2::Compression::default());
    encoder.write_all(content.as_bytes()).expect("writing to a Vec cannot fail");
    encoder.finish().expect("finishing an in-memory gzip stream cannot fail")
}

/// Relies on flate2's GzDecoder (via read_to_string): yields the text the
/// stream compresses, or an error for an invalid stream or non-UTF-8 data.
#[verifier::external_body]
pub(crate) fn gzip_decompress(bytes: &[u8]) -> (r: Option<String>)
    ensures
        (match r {
            Some(s) => gunzip_of(bytes@) == Some(s@),
            None => gunzip_of(bytes@) is None,
        }),
{
    let mut decoder = flate2::read::GzDecoder::new(bytes);
    let mut content = String::new();
    match decoder.read_to_string(&mut content) {
        Ok(_) => Some(content),
        Err(_) => None,
    }
}

} // verus!
