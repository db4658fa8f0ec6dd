use ssdeep::compare;
use ssdeep::create_buffer_for_result;
use ssdeep::fill_result_buffer;
use ssdeep::hash;
use ssdeep::hash_from_file;
use ssdeep::result_buffer_to_string;
use ssdeep::Error;
use ssdeep::NativeOperation;

fn compare_error() -> Error {
    Error::NativeCallFailed {
        operation: NativeOperation::Compare,
        code: -1,
    }
}

//
// compare()
//

#[test]
fn compare_returns_one_hundred_score_when_hashes_are_equal() {
    let h1 = b"3:AXGBicFlgVNhBGcL6wCrFQEv:AXGHsNhxLsr2C";
    let h2 = b"3:AXGBicFlgVNhBGcL6wCrFQEv:AXGHsNhxLsr2C";
    assert_eq!(compare(h1, h2), Ok(100));
}

#[test]
fn compare_returns_nonzero_score_when_hashes_are_similar() {
    let h1 = b"3:AXGBicFlgVNhBGcL6wCrFQEv:AXGHsNhxLsr2C";
    let h2 = b"3:AXGBicFlIHBGcL6wCrFQEv:AXGH6xLsr2Cx";
    assert_eq!(compare(h1, h2), Ok(22));
}

#[test]
fn compare_returns_zero_when_hashes_are_not_similar() {
    let h1 = b"3:u+N:u+N";
    let h2 = b"3:OWIXTn:OWQ";
    assert_eq!(compare(h1, h2), Ok(0));
}

#[test]
fn compare_returns_none_when_hash_is_invalid() {
    let h1 = b"XYZ";
    let h2 = b"3:tc:u";
    assert_eq!(compare(h1, h2), Err(compare_error()));
}

#[test]
fn compare_accepts_strs_as_bytes() {
    let h1 = "3:OWR:OWR";
    let h2 = "3:OWR:OWR";
    assert_eq!(compare(h1.as_bytes(), h2.as_bytes()), Ok(100));
}

#[test]
fn compare_accepts_strings_as_bytes() {
    let h1 = "3:OWR:OWR".to_string();
    let h2 = "3:OWR:OWR".to_string();
    assert_eq!(compare(h1.as_bytes(), h2.as_bytes()), Ok(100));
}

#[test]
fn compare_rejects_malformed_second_signature() {
    assert_eq!(compare(b"3:tc:u", b"XYZ"), Err(compare_error()));
}

#[test]
fn compare_rejects_signature_with_three_colons() {
    assert_eq!(compare(b"3:a:b:c", b"3:a:b"), Err(compare_error()));
}

#[test]
fn compare_rejects_empty_block_size() {
    assert_eq!(compare(b":abc:def", b":abc:def"), Err(compare_error()));
}

#[test]
fn compare_rejects_overflowing_block_size() {
    let h = b"99999999999:abc:def";
    assert_eq!(compare(h, h), Err(compare_error()));
}

#[test]
fn compare_rejects_oversized_block_size() {
    // parses as a 32-bit number, but past the range the comparison
    // primitive can score without overflowing
    let h = b"4294967295:abc:def";
    assert_eq!(compare(h, h), Err(compare_error()));
}

#[test]
fn compare_rejects_non_ascii_signature() {
    let h: &[u8] = &[51, 58, 200, 58, 97];
    assert_eq!(compare(h, b"3:tc:u"), Err(compare_error()));
}

#[test]
fn compare_accepts_plus_signed_block_size() {
    // 32-bit decimal parsing admits one leading plus sign
    let h = b"+3:abc:def";
    assert_eq!(compare(h, h), Ok(100));
}

#[test]
fn compare_scores_incompatible_block_sizes_as_zero() {
    // well-formed on both sides, but 3 and 12 are not within a factor of
    // two of each other: no similarity, which is a score, not an error
    assert_eq!(
        compare(b"3:abcdefgh:ijklmnop", b"12:abcdefgh:ijklmnop"),
        Ok(0)
    );
}

#[test]
fn compare_scores_unrelated_doubled_pair_as_zero() {
    // compatible block sizes whose parts share no scorable overlap:
    // zero similarity, not an error
    assert_eq!(
        compare(b"3:abcdefgh:ijklmnop", b"6:ABCDEFGH:IJKLMNOP"),
        Ok(0)
    );
}

#[test]
fn compare_scores_doubled_block_sizes() {
    // 3 and 6 are compatible: the larger signature's first part is scored
    // against the smaller one's second part, here a perfect overlap capped
    // by the block-size-dependent match limit
    let r = compare(b"3:xxxxxxxx:abcdefgh", b"6:abcdefgh:yyyyyyyy");
    assert_eq!(r, Ok(16));
}

//
// hash()
//

#[test]
fn hash_returns_correct_hash() {
    let h = hash(b"Hello there!").unwrap();
    assert_eq!(h, "3:aNRn:aNRn");
}

#[test]
fn hash_accepts_str_as_bytes() {
    let h = hash("Hello there!".as_bytes()).unwrap();
    assert_eq!(h, "3:aNRn:aNRn");
}

#[test]
fn hash_accepts_string_as_bytes() {
    let h = hash("Hello there!".to_string().as_bytes()).unwrap();
    assert_eq!(h, "3:aNRn:aNRn");
}

#[test]
fn hash_of_empty_buffer_is_well_formed() {
    let h = hash(b"").unwrap();
    assert_eq!(h, "3::");
    assert_eq!(compare(h.as_bytes(), h.as_bytes()), Ok(100));
}

#[test]
fn hash_is_deterministic() {
    let first = hash(b"determinism check payload").unwrap();
    let second = hash(b"determinism check payload").unwrap();
    assert_eq!(first, second);
}

#[test]
fn hash_then_self_compare_gives_full_score() {
    let h = hash(b"round trip self similarity").unwrap();
    assert_eq!(compare(h.as_bytes(), h.as_bytes()), Ok(100));
}

//
// hash_from_file()
//

#[test]
fn hash_from_file_of_empty_device_matches_empty_hash() {
    // the backend reads the named file itself; the empty device gives the
    // same signature as hashing an empty buffer
    let from_file = hash_from_file("/dev/null").unwrap();
    let from_buffer = hash(b"").unwrap();
    assert_eq!(from_file, from_buffer);
    assert_eq!(from_file, "3::");
}

#[test]
fn hash_from_file_reports_unreadable_file() {
    let r = hash_from_file("no_such_file_anywhere_here.bin");
    assert_eq!(
        r,
        Err(Error::NativeCallFailed {
            operation: NativeOperation::HashFilename,
            code: -1,
        })
    );
}

//
// result buffer lifecycle
//

#[test]
fn create_buffer_for_result_starts_empty() {
    let buffer = create_buffer_for_result();
    assert_eq!(buffer.len(), 0);
}

#[test]
fn fill_result_buffer_pads_to_capacity_with_zeros() {
    let mut buffer = create_buffer_for_result();
    fill_result_buffer(&mut buffer, b"abc");
    assert_eq!(buffer.len(), 2 * 64 + 20);
    assert_eq!(&buffer[..3], b"abc");
    assert!(buffer[3..].iter().all(|b| *b == 0));
}

#[test]
fn result_buffer_to_string_reports_failed_call() {
    let buffer = create_buffer_for_result();
    let r = result_buffer_to_string(buffer, 3, NativeOperation::HashBuf);
    assert_eq!(
        r,
        Err(Error::NativeCallFailed {
            operation: NativeOperation::HashBuf,
            code: 3,
        })
    );
}

#[test]
fn result_buffer_to_string_stops_at_first_nul() {
    let buffer = vec![97, 98, 99, 0, 120, 121];
    let r = result_buffer_to_string(buffer, 0, NativeOperation::HashBuf);
    assert_eq!(r, Ok("abc".to_string()));
}

#[test]
fn result_buffer_to_string_takes_whole_buffer_without_nul() {
    let buffer = vec![97, 98];
    let r = result_buffer_to_string(buffer, 0, NativeOperation::HashBuf);
    assert_eq!(r, Ok("ab".to_string()));
}

#[test]
fn result_buffer_to_string_accepts_empty_buffer() {
    let buffer = create_buffer_for_result();
    let r = result_buffer_to_string(buffer, 0, NativeOperation::HashBuf);
    assert_eq!(r, Ok(String::new()));
}

#[test]
fn result_buffer_to_string_rejects_non_ascii_content() {
    let buffer = vec![200, 0];
    let r = result_buffer_to_string(buffer, 0, NativeOperation::HashBuf);
    assert_eq!(r, Err(Error::InvalidEncoding));
}
