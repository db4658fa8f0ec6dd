//! Safe interop layer over a context-triggered piecewise hashing (CTPH)
//! backend: buffer hashing, file hashing and signature comparison, with
//! explicit preconditions and a closed, structured error taxonomy.
//!
//! The CTPH algorithm itself — rolling checksum, piecewise matching and the
//! signature text format — is an external, pre-existing component consumed
//! through a small set of trusted calls; it is not reimplemented here. This
//! crate owns everything around those calls: result-buffer lifecycle,
//! recovery of the NUL-terminated signature text from fixed-capacity
//! storage, input validation, and the mapping from native failures to
//! typed errors.

use vstd::prelude::*;

mod buffer;
mod error;
mod laws;
mod native;
mod signature;

pub use buffer::create_buffer_for_result;
pub use buffer::fill_result_buffer;
pub use buffer::nul_scan_len;
pub use buffer::result_buffer_to_string;
pub use buffer::FUZZY_MAX_RESULT;
pub use error::Error;
pub use error::NativeOperation;
pub use native::compare_spec;
pub use native::ctph_of;
pub use native::ctph_score;
pub use native::MAX_EMITTED_BLOCK_SIZE;
pub use native::MAX_HASH_BUF_LEN;
pub use signature::admissible_signature;
pub use signature::ascii_view;
pub use signature::block_size_of;
pub use signature::char_bytes;
pub use signature::compatible_block_sizes;
pub use signature::is_signature;
pub use signature::no_nul;
pub use signature::validate_signature;
pub use signature::MAX_BLOCK_SIZE;

use crate::buffer::lemma_nul_scan_at;
use crate::native::ascii_bytes_to_string;
use crate::native::fuzzy_compare;
use crate::native::fuzzy_hash_buf;
use crate::native::fuzzy_hash_filename;
use crate::signature::ascii_seq;
use crate::signature::lemma_ascii_view_is_ascii;
use crate::signature::lemma_ascii_view_roundtrip;
use vstd::slice::slice_to_vec;

verus! {

/// Computes the match score between two fuzzy hash signatures.
///
/// Returns `Ok` with a score from 0 to 100 indicating how well the two
/// signatures match; 0 means no match at all. Dissimilarity is a
/// successful comparison outcome: a pair of well-formed signatures always
/// receives a score, and a pair the backend cannot relate — block sizes
/// not within a factor of two, or no scorable overlap — scores 0. The
/// comparison error comes back only when an input is not a well-formed
/// signature the backend can be called on.
///
/// Neither input may contain an embedded NUL byte: the native interface
/// is NUL-terminated-string based, so an embedded NUL would silently
/// truncate what is compared. Signatures produced by [`hash`] never
/// contain one.
pub fn compare(hash1: &[u8], hash2: &[u8]) -> (r: Result<i8, Error>)
    requires
        no_nul(hash1@),
        no_nul(hash2@),
    ensures
        r == compare_spec(hash1@, hash2@),
        r matches Ok(score) ==> 0 <= score <= 100,
{
    if !validate_signature(hash1) {
        return Err(Error::NativeCallFailed { operation: NativeOperation::Compare, code: -1 });
    }
    if !validate_signature(hash2) {
        return Err(Error::NativeCallFailed { operation: NativeOperation::Compare, code: -1 });
    }
    proof {
        lemma_ascii_view_roundtrip(hash1@);
        lemma_ascii_view_roundtrip(hash2@);
        lemma_ascii_view_is_ascii(hash1@);
        lemma_ascii_view_is_ascii(hash2@);
    }
    let s1 = ascii_bytes_to_string(slice_to_vec(hash1));
    let s2 = ascii_bytes_to_string(slice_to_vec(hash2));
    match fuzzy_compare(s1.as_str(), s2.as_str()) {
        Some(score) => Ok(score as i8),
        None => Ok(0),
    }
}

/// Computes the fuzzy hash signature of a buffer.
///
/// The buffer length must fit in 32 bits, because the native interface
/// takes it as an unsigned 32-bit integer and silently hashing a
/// truncated view would be a correctness hazard. That bound is a
/// precondition, not a recoverable error: a buffer of exactly
/// `u32::MAX` bytes is accepted, while one of `2^32` bytes or more is
/// excluded from every verified call, so no length-truncated hash is
/// ever computed and no native call ever sees such input. Buffers the
/// backend's block search cannot cover (longer than
/// [`MAX_HASH_BUF_LEN`]) are reported as a failed native call; every
/// shorter buffer hashes successfully, and the signature depends on the
/// buffer contents alone.
pub fn hash(buf: &[u8]) -> (r: Result<String, Error>)
    requires
        buf@.len() <= u32::MAX as int,
    ensures
        buf@.len() <= MAX_HASH_BUF_LEN ==> (r matches Ok(sig) && sig@ == ascii_view(ctph_of(buf@))
            && admissible_signature(ctph_of(buf@)) && sig@.len() < FUZZY_MAX_RESULT as int),
        buf@.len() > MAX_HASH_BUF_LEN ==> r == Err::<String, Error>(
            (Error::NativeCallFailed { operation: NativeOperation::HashBuf, code: -1i32 }),
        ),
{
    if buf.len() > MAX_HASH_BUF_LEN {
        return Err(Error::NativeCallFailed { operation: NativeOperation::HashBuf, code: -1 });
    }
    let sig = fuzzy_hash_buf(buf);
    let mut out = create_buffer_for_result();
    fill_result_buffer(&mut out, sig.as_slice());
    proof {
        assert forall|k: int| 0 <= k < sig@.len() implies out@[k] != 0 by {
            assert(out@.take(sig@.len() as int)[k] == out@[k]);
        }
        lemma_nul_scan_at(out@, sig@.len() as int);
    }
    result_buffer_to_string(out, 0, NativeOperation::HashBuf)
}

/// Computes the fuzzy hash signature of the named file.
///
/// The backend opens, reads and hashes the file itself; failure to open
/// or read it surfaces as the file-hashing error. The native layer does
/// not distinguish a missing file from a permission or read failure: it
/// is a single failure signal, and no guess is made about which occurred.
/// The path must not contain an embedded NUL byte (the caller malformed
/// it, not the file system).
///
/// Files of three gibibytes or more exceed the backend's 32-bit
/// bookkeeping: built with overflow checks it aborts on them, and built
/// without it hands back an empty or degenerate signature (see
/// the file-hashing trusted call). Nothing in this crate can observe a
/// file's size before that call is made.
pub fn hash_from_file(file_path: &str) -> (r: Result<String, Error>)
    requires
        forall|i: int| 0 <= i < file_path@.len() ==> #[trigger] file_path@[i] as u32 != 0,
    ensures
        r matches Ok(sig) ==> sig@.len() < FUZZY_MAX_RESULT as int && (sig@.len() == 0 || (
        is_signature(char_bytes(sig@)) && block_size_of(char_bytes(sig@))
            <= MAX_EMITTED_BLOCK_SIZE as int)),
        r matches Err(e) ==> e == (Error::NativeCallFailed {
            operation: NativeOperation::HashFilename,
            code: -1i32,
        }),
{
    let mut out = create_buffer_for_result();
    match fuzzy_hash_filename(file_path) {
        Some(sig) => {
            fill_result_buffer(&mut out, sig.as_slice());
            proof {
                assert forall|k: int| 0 <= k < sig@.len() implies out@[k] != 0 by {
                    assert(out@.take(sig@.len() as int)[k] == out@[k]);
                }
                lemma_nul_scan_at(out@, sig@.len() as int);
                if sig@.len() != 0 {
                    lemma_ascii_view_roundtrip(sig@);
                }
            }
            result_buffer_to_string(out, 0, NativeOperation::HashFilename)
        },
        None => result_buffer_to_string(out, -1, NativeOperation::HashFilename),
    }
}

} // verus!
