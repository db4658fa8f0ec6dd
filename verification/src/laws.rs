use vstd::prelude::*;

use crate::error::compare_failed;
use crate::error::Error;
use crate::native::compare_spec;
use crate::native::ctph_of;
use crate::signature::admissible_signature;
use crate::signature::ascii_view;
use crate::signature::block_size_of;
use crate::signature::compatible_block_sizes;
use crate::signature::is_signature;

verus! {

/// Comparing any well-formed signature the comparison primitive accepts
/// with itself yields exactly the full score of 100. The block size cap
/// in the premise is a machine limit: past it the backend's 32-bit score
/// arithmetic overflows, so such signatures are turned away instead of
/// scored.
pub proof fn lemma_identical_signatures_full_score(sig: Seq<u8>)
    requires
        admissible_signature(sig),
    ensures
        compare_spec(sig, sig) == Ok::<i8, Error>(100),
{
}

/// Dissimilarity is a successful comparison outcome, not an error: a
/// pair of well-formed signatures the comparison primitive accepts
/// always receives a score.
pub proof fn lemma_wellformed_pair_always_scores(sig1: Seq<u8>, sig2: Seq<u8>)
    requires
        admissible_signature(sig1),
        admissible_signature(sig2),
    ensures
        compare_spec(sig1, sig2) is Ok,
{
}

/// Well-formed signatures whose block sizes are not within a factor of
/// two of each other share no structure the backend can score: they
/// compare to a zero score, not to an error.
pub proof fn lemma_incompatible_block_sizes_score_zero(sig1: Seq<u8>, sig2: Seq<u8>)
    requires
        admissible_signature(sig1),
        admissible_signature(sig2),
        !compatible_block_sizes(block_size_of(sig1), block_size_of(sig2)),
    ensures
        compare_spec(sig1, sig2) == Ok::<i8, Error>(0),
{
}

/// A malformed signature — text that does not follow the signature
/// grammar — paired with any other text never yields a score, only the
/// comparison error, whichever side it stands on.
pub proof fn lemma_malformed_signature_rejected(sig: Seq<u8>, other: Seq<u8>)
    requires
        !is_signature(sig),
    ensures
        compare_spec(sig, other) == Err::<i8, Error>(compare_failed()),
        compare_spec(other, sig) == Err::<i8, Error>(compare_failed()),
{
}

/// Round-trip self-similarity: a signature produced by hashing a buffer —
/// `hash` guarantees it is well formed and within the comparable block
/// size range — compares with itself to exactly 100.
pub proof fn lemma_hash_round_trip(buf: Seq<u8>, sig: Seq<u8>)
    requires
        sig == ctph_of(buf),
        admissible_signature(sig),
    ensures
        compare_spec(sig, sig) == Ok::<i8, Error>(100),
{
    lemma_identical_signatures_full_score(sig);
}

/// Hashing is deterministic: two results of hashing the same bytes are
/// the same text, across repeated calls.
pub proof fn lemma_hash_deterministic(buf: Seq<u8>, r1: Seq<char>, r2: Seq<char>)
    requires
        r1 == ascii_view(ctph_of(buf)),
        r2 == ascii_view(ctph_of(buf)),
    ensures
        r1 == r2,
{
}

} // verus!
