use vstd::prelude::*;

use crate::error::Error;
use crate::error::NativeOperation;
use crate::native::ascii_bytes_to_string;
use crate::signature::ascii_seq;
use crate::signature::ascii_view;

verus! {

/// Capacity, in bytes, of the storage that receives a signature from the
/// hashing backend: the longest possible signature plus its terminator
/// fits in this many bytes.
pub const FUZZY_MAX_RESULT: usize = 2 * 64 + 20;

/// Length of the NUL-terminated string held at the start of `s`: the
/// number of bytes before the first zero byte, or all of `s` when no zero
/// byte occurs. The backend communicates the logical length of the
/// signature it wrote only through the embedded terminator, so this scan,
/// bounded by the storage it runs over, is the only valid recovery of it.
pub open spec fn nul_scan_len(s: Seq<u8>) -> int
    decreases s.len(),
{
    if s.len() == 0 {
        0
    } else if s[0] == 0 {
        0
    } else {
        1 + nul_scan_len(s.drop_first())
    }
}

/// The scan stops exactly at the first zero byte: if the first `n` bytes
/// are nonzero and either the storage ends there or a zero byte follows,
/// the recovered length is `n`.
pub proof fn lemma_nul_scan_at(s: Seq<u8>, n: int)
    requires
        0 <= n <= s.len(),
        forall|k: int| 0 <= k < n ==> s[k] != 0,
        n < s.len() ==> s[n] == 0,
    ensures
        nul_scan_len(s) == n,
    decreases n,
{
    if s.len() == 0 {
    } else if n == 0 {
    } else {
        lemma_nul_scan_at(s.drop_first(), n - 1);
    }
}

/// Allocates the result storage for a native hashing call. The returned
/// buffer is empty; `fill_result_buffer` grows it to the full fixed
/// capacity before the signature text is recovered from it.
pub fn create_buffer_for_result() -> (r: Vec<u8>)
    ensures
        r@ == Seq::<u8>::empty(),
{
    Vec::with_capacity(FUZZY_MAX_RESULT)
}

/// Populates the result storage as the native interface defines it: the
/// signature bytes at the start, and the remainder of the fixed capacity
/// zeroed, so the first zero byte terminates the logical string.
pub fn fill_result_buffer(out: &mut Vec<u8>, sig: &[u8])
    requires
        old(out)@.len() == 0,
        sig@.len() < FUZZY_MAX_RESULT,
    ensures
        final(out)@.len() == FUZZY_MAX_RESULT,
        final(out)@.take(sig@.len() as int) == sig@,
        forall|k: int| sig@.len() <= k < FUZZY_MAX_RESULT ==> final(out)@[k] == 0,
{
    let mut i: usize = 0;
    while i < sig.len()
        invariant
            0 <= i <= sig@.len() < FUZZY_MAX_RESULT,
            out@.len() == i,
            out@ == sig@.take(i as int),
        decreases sig@.len() - i,
    {
        out.push(sig[i]);
        proof {
            assert(out@ =~= sig@.take(i + 1));
        }
        i += 1;
    }
    assert(out@ =~= sig@);
    while out.len() < FUZZY_MAX_RESULT
        invariant
            sig@.len() <= out@.len() <= FUZZY_MAX_RESULT,
            out@.take(sig@.len() as int) == sig@,
            forall|k: int| sig@.len() <= k < out@.len() ==> out@[k] == 0,
        decreases FUZZY_MAX_RESULT - out@.len(),
    {
        out.push(0);
        proof {
            assert(out@.take(sig@.len() as int) =~= sig@);
        }
    }
}

/// Recovers the signature text from the result storage of a native
/// hashing call, translating a failed call into its error.
///
/// When the call reported failure (`rc != 0`) the storage content is
/// unspecified and must not be trusted: the error carries the operation
/// and the raw code. On success the logical string is recovered by
/// scanning for the first zero byte — never past the storage itself — and
/// decoding the bytes before it as ASCII text. Non-ASCII content there
/// means the backend broke its contract; that surfaces as
/// `Error::InvalidEncoding`.
pub fn result_buffer_to_string(result: Vec<u8>, rc: i32, operation: NativeOperation) -> (r: Result<
    String,
    Error,
>)
    ensures
        rc != 0 ==> r == Err::<String, Error>(
            (Error::NativeCallFailed { operation, code: rc }),
        ),
        rc == 0 && ascii_seq(result@.take(nul_scan_len(result@))) ==> (r matches Ok(s)
            && s@ == ascii_view(result@.take(nul_scan_len(result@)))),
        rc == 0 && !ascii_seq(result@.take(nul_scan_len(result@))) ==> r == Err::<String, Error>(
            Error::InvalidEncoding,
        ),
{
    let ghost orig: Seq<u8> = result@;
    if rc != 0 {
        return Err(Error::NativeCallFailed { operation, code: rc });
    }
    let n = result.len();
    let mut len: usize = 0;
    while len < n && result[len] != 0
        invariant
            0 <= len <= n,
            result@ == orig,
            n == orig.len(),
            forall|k: int| 0 <= k < len ==> orig[k] != 0,
        decreases n - len,
    {
        len += 1;
    }
    proof {
        lemma_nul_scan_at(orig, len as int);
    }
    let mut trimmed = result;
    trimmed.truncate(len);
    proof {
        assert(trimmed@ =~= orig.take(nul_scan_len(orig)));
    }
    let mut i: usize = 0;
    let mut all_ascii = true;
    while i < trimmed.len()
        invariant
            0 <= i <= trimmed@.len(),
            all_ascii == ascii_seq(trimmed@.take(i as int)),
        decreases trimmed@.len() - i,
    {
        if trimmed[i] >= 128 {
            all_ascii = false;
            proof {
                assert(trimmed@.take(i + 1)[i as int] == trimmed@[i as int]);
                assert(!ascii_seq(trimmed@.take(i + 1)));
            }
        } else {
            proof {
                if ascii_seq(trimmed@.take(i as int)) {
                    assert forall|k: int| 0 <= k < i + 1 implies #[trigger] trimmed@.take(
                        i + 1,
                    )[k] < 128 by {
                        assert(trimmed@.take(i + 1)[k] == trimmed@[k]);
                        if k < i {
                            assert(trimmed@.take(i as int)[k] < 128);
                        }
                    }
                } else {
                    let bad = choose|k: int|
                        0 <= k < i && #[trigger] trimmed@.take(i as int)[k] >= 128;
                    assert(trimmed@.take(i + 1)[bad] >= 128);
                }
            }
        }
        i += 1;
    }
    assert(trimmed@.take(trimmed@.len() as int) =~= trimmed@);
    if !all_ascii {
        return Err(Error::InvalidEncoding);
    }
    Ok(ascii_bytes_to_string(trimmed))
}

} // verus!
