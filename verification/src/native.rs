use vstd::prelude::*;

use crate::error::compare_failed;
use crate::error::Error;
use crate::signature::admissible_signature;
use crate::signature::ascii_chars;
use crate::signature::ascii_seq;
use crate::signature::ascii_view;
use crate::signature::block_size_of;
use crate::signature::char_bytes;
use crate::signature::compatible_block_sizes;

verus! {

/// Largest buffer length the hashing backend is called on. The backend
/// keeps the total size in 32 bits and picks the block size by doubling a
/// 192-byte unit until it covers the input; past three gibibytes that
/// search overflows, so longer buffers are reported as a failed native
/// call instead of being handed over.
pub const MAX_HASH_BUF_LEN: usize = 3 * 1_073_741_824;

/// The CTPH signature of a byte sequence, as the bytes of its text form.
/// The signature is a function of the hashed bytes alone: identical input
/// bytes always produce an identical signature, across calls, processes
/// and machines.
pub uninterp spec fn ctph_of(bytes: Seq<u8>) -> Seq<u8>;

/// The raw outcome of the native comparison of two distinct well-formed
/// signatures with compatible block sizes: the match score, or nothing
/// when the backend finds no scorable overlap.
pub uninterp spec fn ctph_score(sig1: Seq<u8>, sig2: Seq<u8>) -> Option<int>;

/// Relies on `fuzzyhash::FuzzyHash::new` (and its text rendering): hashing
/// a buffer of at most `MAX_HASH_BUF_LEN` bytes always yields a signature
/// string of the form `block_size:part:part` — decimal block size that
/// fits in 32 bits and stays within `MAX_BLOCK_SIZE`, colon-free ASCII
/// parts, no embedded NUL — shorter than the fixed result capacity. The
/// result depends on the buffer contents alone.
#[verifier::external_body]
pub(crate) fn fuzzy_hash_buf(buf: &[u8]) -> (r: Vec<u8>)
    requires
        buf@.len() <= MAX_HASH_BUF_LEN,
    ensures
        r@ == ctph_of(buf@),
        admissible_signature(r@),
        r@.len() < crate::buffer::FUZZY_MAX_RESULT,
{
    fuzzyhash::FuzzyHash::new(buf).to_string().into_bytes()
}

/// Largest block size the hashing backend ever writes into a signature:
/// the three-byte minimum block size doubled at most 30 times.
pub const MAX_EMITTED_BLOCK_SIZE: u32 = 3 * 1_073_741_824;

/// Relies on `fuzzyhash::FuzzyHash::file`: opens and hashes the named
/// file, returning its signature bytes, or nothing when the file cannot
/// be opened or read. The outcome depends on the file system, so nothing
/// relates it to the path; whenever a nonempty result comes back it is a
/// well-formed signature within the fixed result capacity, with a block
/// size the backend can emit (the backend hands back an empty string in
/// place of a signature on inputs past its internal block limit, and
/// aborts on files of three gibibytes or more when built with overflow
/// checks).
#[verifier::external_body]
pub(crate) fn fuzzy_hash_filename(path: &str) -> (r: Option<Vec<u8>>)
    ensures
        r matches Some(sig) ==> sig@.len() < crate::buffer::FUZZY_MAX_RESULT && (sig@.len() != 0
            ==> crate::signature::is_signature(sig@) && crate::signature::block_size_of(sig@)
            <= MAX_EMITTED_BLOCK_SIZE as int),
{
    match fuzzyhash::FuzzyHash::file(path) {
        Ok(h) => Some(h.to_string().into_bytes()),
        Err(_) => None,
    }
}

/// Relies on `fuzzyhash::FuzzyHash::compare`: on well-formed signatures
/// whose block sizes stay within `MAX_BLOCK_SIZE`, the comparison is a
/// function of the two strings alone; it rejects incompatible block
/// sizes, scores identical signatures at exactly 100, and never scores
/// above 100.
#[verifier::external_body]
pub(crate) fn fuzzy_compare(sig1: &str, sig2: &str) -> (r: Option<u32>)
    requires
        ascii_chars(sig1@),
        ascii_chars(sig2@),
        admissible_signature(char_bytes(sig1@)),
        admissible_signature(char_bytes(sig2@)),
    ensures
        !compatible_block_sizes(
            block_size_of(char_bytes(sig1@)),
            block_size_of(char_bytes(sig2@)),
        ) ==> r is None,
        (compatible_block_sizes(block_size_of(char_bytes(sig1@)), block_size_of(char_bytes(sig2@)))
            && char_bytes(sig1@) == char_bytes(sig2@)) ==> r == Some(100u32),
        (compatible_block_sizes(block_size_of(char_bytes(sig1@)), block_size_of(char_bytes(sig2@)))
            && char_bytes(sig1@) != char_bytes(sig2@)) ==> (match r {
            Some(v) => ctph_score(char_bytes(sig1@), char_bytes(sig2@)) == Some(v as int),
            None => ctph_score(char_bytes(sig1@), char_bytes(sig2@)) is None,
        }),
        r matches Some(v) ==> v <= 100,
{
    fuzzyhash::FuzzyHash::compare(sig1, sig2).ok()
}

/// Relies on `String::from_utf8`: ASCII bytes are valid UTF-8 and decode
/// one byte to one character with the same code point.
#[verifier::external_body]
pub(crate) fn ascii_bytes_to_string(bytes: Vec<u8>) -> (r: String)
    requires
        ascii_seq(bytes@),
    ensures
        r@ == ascii_view(bytes@),
{
    String::from_utf8(bytes).unwrap()
}

/// What a comparison of two byte strings returns. Only malformed or
/// oversized input is an error: a pair of well-formed signatures always
/// receives a score, because dissimilarity is a successful comparison
/// outcome. Identical signatures score exactly 100; a pair the backend
/// cannot score at all — block sizes not within a factor of two of each
/// other, or no scorable overlap between the parts — scores 0; any other
/// pair scores whatever the backend computes for it.
pub open spec fn compare_spec(a: Seq<u8>, b: Seq<u8>) -> Result<i8, Error> {
    if !admissible_signature(a) || !admissible_signature(b) {
        Err(compare_failed())
    } else if !compatible_block_sizes(block_size_of(a), block_size_of(b)) {
        Ok(0 as i8)
    } else if a == b {
        Ok(100 as i8)
    } else {
        match ctph_score(a, b) {
            Some(score) => Ok(score as i8),
            None => Ok(0 as i8),
        }
    }
}

} // verus!
