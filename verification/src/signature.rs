use vstd::prelude::*;

verus! {

/// Largest block size value this library accepts in a signature handed to
/// the comparison primitive. Scores are computed in 32-bit arithmetic as
/// `block_size / 3 * part_length` with `part_length` up to `64`, on block
/// sizes up to twice the declared one; this bound is the largest value for
/// which that product stays below `2^32`, so the backend never overflows.
pub const MAX_BLOCK_SIZE: u32 = 100_663_295;

/// Holds when `s` has no embedded NUL byte. Native string inputs must be
/// representable as NUL-terminated strings, so an embedded NUL would
/// silently truncate the observed value.
pub open spec fn no_nul(s: Seq<u8>) -> bool {
    forall|i: int| 0 <= i < s.len() ==> s[i] != 0
}

/// Holds when every byte of `s` is ASCII.
pub open spec fn ascii_seq(s: Seq<u8>) -> bool {
    forall|i: int| 0 <= i < s.len() ==> s[i] < 128
}

/// The text that a sequence of ASCII bytes decodes to, one byte per
/// character.
pub open spec fn ascii_view(s: Seq<u8>) -> Seq<char> {
    Seq::new(s.len(), |i: int| s[i] as char)
}

/// The bytes of a sequence of ASCII characters, one character per byte.
pub open spec fn char_bytes(s: Seq<char>) -> Seq<u8> {
    Seq::new(s.len(), |i: int| s[i] as u8)
}

/// Holds when every character of `s` is ASCII. On ASCII text, and only
/// there, `char_bytes` loses nothing.
pub open spec fn ascii_chars(s: Seq<char>) -> bool {
    forall|i: int| #![trigger s[i]] 0 <= i < s.len() ==> (s[i] as u32) < 128
}

/// The text that ASCII bytes decode to is ASCII text.
pub proof fn lemma_ascii_view_is_ascii(s: Seq<u8>)
    requires
        ascii_seq(s),
    ensures
        ascii_chars(ascii_view(s)),
{
    assert forall|i: int| #![trigger ascii_view(s)[i]] 0 <= i < ascii_view(s).len() implies (
    ascii_view(s)[i] as u32) < 128 by {
        assert(ascii_view(s)[i] == s[i] as char);
    }
}

/// Decoding ASCII bytes to text and back returns the same bytes.
pub proof fn lemma_ascii_view_roundtrip(s: Seq<u8>)
    requires
        ascii_seq(s),
    ensures
        char_bytes(ascii_view(s)) == s,
{
    assert(char_bytes(ascii_view(s)) =~= s);
}

/// Holds when `i` and `j` are the positions of the only two colons of `s`,
/// in order: the split into block size, first part and second part.
pub open spec fn sig_parts(s: Seq<u8>, i: int, j: int) -> bool {
    &&& 0 <= i < j < s.len()
    &&& s[i] == 58
    &&& s[j] == 58
    &&& forall|k: int| 0 <= k < s.len() && s[k] == 58 ==> k == i || k == j
}

/// A signature has exactly one pair of colon positions.
pub proof fn lemma_sig_parts_unique(s: Seq<u8>, i1: int, j1: int, i2: int, j2: int)
    requires
        sig_parts(s, i1, j1),
        sig_parts(s, i2, j2),
    ensures
        i1 == i2,
        j1 == j2,
{
}

/// Holds when every byte of `s` is a decimal digit.
pub open spec fn all_digits(s: Seq<u8>) -> bool {
    forall|i: int| 0 <= i < s.len() ==> 48 <= #[trigger] s[i] <= 57
}

/// The number that a sequence of decimal digit bytes denotes.
pub open spec fn dec_value(s: Seq<u8>) -> int
    decreases s.len(),
{
    if s.len() == 0 {
        0
    } else {
        dec_value(s.drop_last()) * 10 + (s.last() - 48)
    }
}

/// The digit portion of a decimal numeral: everything after an optional
/// leading plus sign.
pub open spec fn u32_digits(s: Seq<u8>) -> Seq<u8> {
    if s.len() > 0 && s[0] == 43 {
        s.drop_first()
    } else {
        s
    }
}

/// Holds when `s` is accepted by 32-bit unsigned decimal parsing: an
/// optional plus sign, then at least one digit, denoting a value that fits
/// in 32 bits.
pub open spec fn parses_as_u32(s: Seq<u8>) -> bool {
    &&& u32_digits(s).len() > 0
    &&& all_digits(u32_digits(s))
    &&& dec_value(u32_digits(s)) <= u32::MAX as int
}

/// Well-formed signature text: ASCII without embedded NUL, split by exactly
/// two colons, and a block size field that parses as a 32-bit number.
pub open spec fn is_signature(s: Seq<u8>) -> bool {
    &&& ascii_seq(s)
    &&& no_nul(s)
    &&& exists|i: int, j: int| sig_parts(s, i, j) && parses_as_u32(s.take(i))
}

/// The block size a well-formed signature declares.
pub open spec fn block_size_of(s: Seq<u8>) -> int {
    let (i, j): (int, int) = choose|i: int, j: int|
        sig_parts(s, i, j) && parses_as_u32(s.take(i));
    dec_value(u32_digits(s.take(i)))
}

/// A well-formed signature whose block size the comparison primitive can
/// score without overflowing.
pub open spec fn admissible_signature(s: Seq<u8>) -> bool {
    is_signature(s) && block_size_of(s) <= MAX_BLOCK_SIZE as int
}

/// Block sizes the comparison primitive scores against each other: equal,
/// or one exactly twice the other.
pub open spec fn compatible_block_sizes(x: int, y: int) -> bool {
    x == y || x == 2 * y || y == 2 * x
}

/// `block_size_of` agrees with any concrete colon split.
pub proof fn lemma_block_size_at(s: Seq<u8>, i: int, j: int)
    requires
        sig_parts(s, i, j),
        parses_as_u32(s.take(i)),
    ensures
        is_signature(s) ==> block_size_of(s) == dec_value(u32_digits(s.take(i))),
{
    if is_signature(s) {
        let (ic, jc): (int, int) = choose|ic: int, jc: int|
            sig_parts(s, ic, jc) && parses_as_u32(s.take(ic));
        lemma_sig_parts_unique(s, i, j, ic, jc);
    }
}

/// A numeral denotes a value no smaller than zero.
pub proof fn lemma_dec_value_nonneg(s: Seq<u8>)
    requires
        all_digits(s),
    ensures
        dec_value(s) >= 0,
    decreases s.len(),
{
    if s.len() > 0 {
        assert(all_digits(s.drop_last()));
        lemma_dec_value_nonneg(s.drop_last());
    }
}

/// Extending a numeral with further digits never shrinks its value.
pub proof fn lemma_dec_value_prefix_le(s: Seq<u8>, n: int)
    requires
        all_digits(s),
        0 <= n <= s.len(),
    ensures
        dec_value(s.take(n)) <= dec_value(s),
    decreases s.len() - n,
{
    if n == s.len() {
        assert(s.take(n) =~= s);
    } else {
        assert(s.take(n + 1).drop_last() =~= s.take(n));
        assert(all_digits(s.take(n)));
        lemma_dec_value_nonneg(s.take(n));
        assert(dec_value(s.take(n + 1)) == dec_value(s.take(n)) * 10 + (s[n] - 48));
        lemma_dec_value_prefix_le(s, n + 1);
    }
}

/// A sequence with two colon splits cannot be a signature when its block
/// size field is not a 32-bit numeral: the split positions are unique, so
/// no other split could parse.
pub proof fn lemma_not_sig_bad_block_size(s: Seq<u8>, i: int, j: int)
    requires
        sig_parts(s, i, j),
        !parses_as_u32(s.take(i)),
    ensures
        !is_signature(s),
{
    if is_signature(s) {
        let (ic, jc): (int, int) = choose|ic: int, jc: int|
            sig_parts(s, ic, jc) && parses_as_u32(s.take(ic));
        lemma_sig_parts_unique(s, i, j, ic, jc);
    }
}

/// Checks whether `s` is a well-formed signature that the comparison
/// primitive can be called on: ASCII text without embedded NUL, exactly
/// two colons, and a block size that parses as a 32-bit number no larger
/// than `MAX_BLOCK_SIZE`.
pub fn validate_signature(s: &[u8]) -> (r: bool)
    ensures
        r == admissible_signature(s@),
{
    let n = s.len();
    let mut k: usize = 0;
    let mut count: usize = 0;
    let mut c1: usize = 0;
    let mut c2: usize = 0;
    while k < n
        invariant
            0 <= k <= n,
            n == s@.len(),
            forall|m: int| 0 <= m < k ==> s@[m] != 0 && s@[m] < 128,
            count <= 2,
            count == 0 ==> forall|m: int| 0 <= m < k ==> s@[m] != 58,
            count == 1 ==> c1 < k && s@[c1 as int] == 58 && (forall|m: int|
                0 <= m < k && m != c1 ==> s@[m] != 58),
            count == 2 ==> c1 < c2 < k && s@[c1 as int] == 58 && s@[c2 as int] == 58 && (
            forall|m: int| 0 <= m < k && m != c1 && m != c2 ==> s@[m] != 58),
        decreases n - k,
    {
        let b = s[k];
        if b == 0 || b >= 128 {
            return false;
        }
        if b == 58 {
            if count == 0 {
                c1 = k;
                count = 1;
            } else if count == 1 {
                c2 = k;
                count = 2;
            } else {
                proof {
                    if is_signature(s@) {
                        let (i, j): (int, int) = choose|i: int, j: int|
                            sig_parts(s@, i, j) && parses_as_u32(s@.take(i));
                        assert(s@[c1 as int] == 58 && s@[c2 as int] == 58 && s@[k as int] == 58);
                        assert(false);
                    }
                }
                return false;
            }
        }
        k += 1;
    }
    if count != 2 {
        proof {
            if is_signature(s@) {
                let (i, j): (int, int) = choose|i: int, j: int|
                    sig_parts(s@, i, j) && parses_as_u32(s@.take(i));
                assert(s@[i] == 58 && s@[j] == 58);
                assert(false);
            }
        }
        return false;
    }
    proof {
        assert(sig_parts(s@, c1 as int, c2 as int));
        assert(ascii_seq(s@));
        assert(no_nul(s@));
    }
    let mut start: usize = 0;
    if c1 > 0 && s[0] == 43 {
        start = 1;
    }
    proof {
        assert(u32_digits(s@.take(c1 as int)) =~= s@.subrange(start as int, c1 as int));
    }
    if start >= c1 {
        proof {
            assert(u32_digits(s@.take(c1 as int)).len() == 0);
            lemma_not_sig_bad_block_size(s@, c1 as int, c2 as int);
        }
        return false;
    }
    let ghost digits: Seq<u8> = s@.subrange(start as int, c1 as int);
    let mut val: u64 = 0;
    let mut idx: usize = start;
    while idx < c1
        invariant
            0 <= start <= idx <= c1 < n,
            n == s@.len(),
            start < c1,
            sig_parts(s@, c1 as int, c2 as int),
            ascii_seq(s@),
            no_nul(s@),
            digits == s@.subrange(start as int, c1 as int),
            u32_digits(s@.take(c1 as int)) == digits,
            all_digits(s@.subrange(start as int, idx as int)),
            val as int == dec_value(s@.subrange(start as int, idx as int)),
            val <= u32::MAX as u64,
        decreases c1 - idx,
    {
        let b = s[idx];
        if b < 48 || b > 57 {
            proof {
                assert(digits[idx - start] == s@[idx as int]);
                assert(!all_digits(digits));
                lemma_not_sig_bad_block_size(s@, c1 as int, c2 as int);
            }
            return false;
        }
        proof {
            assert(s@.subrange(start as int, idx + 1).drop_last() =~= s@.subrange(
                start as int,
                idx as int,
            ));
            assert(s@.subrange(start as int, idx + 1).last() == s@[idx as int]);
        }
        val = val * 10 + ((b - 48) as u64);
        if val > u32::MAX as u64 {
            proof {
                if all_digits(digits) {
                    assert(digits.take(idx + 1 - start) =~= s@.subrange(start as int, idx + 1));
                    lemma_dec_value_prefix_le(digits, idx + 1 - start);
                }
                lemma_not_sig_bad_block_size(s@, c1 as int, c2 as int);
            }
            return false;
        }
        proof {
            assert forall|m: int| 0 <= m < idx + 1 - start implies 48 <= #[trigger] s@.subrange(
                start as int,
                idx + 1,
            )[m] <= 57 by {
                assert(s@.subrange(start as int, idx + 1)[m] == s@[start + m]);
                if m < idx - start {
                    assert(s@.subrange(start as int, idx as int)[m] == s@[start + m]);
                }
            }
        }
        idx += 1;
    }
    proof {
        assert(s@.subrange(start as int, idx as int) == digits);
        assert(parses_as_u32(s@.take(c1 as int)));
        assert(is_signature(s@));
        lemma_block_size_at(s@, c1 as int, c2 as int);
    }
    val <= MAX_BLOCK_SIZE as u64
}

} // verus!
