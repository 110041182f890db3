use sfsu::hash::{HashError, HashType};
use sfsu::pattern::{
    find_base64_digest, find_generic_checksum, find_hash_in_text, find_hash_of_type,
    resolve_reference_text,
};

fn hex_run(n: usize) -> String {
    "a".repeat(n)
}

#[test]
fn md5_pattern_boundaries() {
    // The MD5 pattern matches a maximal run of exactly 32 hex characters
    // and rejects runs of 31 and 33.
    assert_eq!(find_hash_of_type(&hex_run(32), HashType::MD5), Some(hex_run(32)));
    assert_eq!(find_hash_of_type(&hex_run(31), HashType::MD5), None);
    assert_eq!(find_hash_of_type(&hex_run(33), HashType::MD5), None);
}

#[test]
fn sha1_pattern_boundaries() {
    assert_eq!(find_hash_of_type(&hex_run(40), HashType::SHA1), Some(hex_run(40)));
    assert_eq!(find_hash_of_type(&hex_run(39), HashType::SHA1), None);
    assert_eq!(find_hash_of_type(&hex_run(41), HashType::SHA1), None);
}

#[test]
fn sha256_pattern_boundaries() {
    assert_eq!(find_hash_of_type(&hex_run(64), HashType::SHA256), Some(hex_run(64)));
    assert_eq!(find_hash_of_type(&hex_run(63), HashType::SHA256), None);
    assert_eq!(find_hash_of_type(&hex_run(65), HashType::SHA256), None);
}

#[test]
fn sha512_pattern_boundaries() {
    assert_eq!(find_hash_of_type(&hex_run(128), HashType::SHA512), Some(hex_run(128)));
    assert_eq!(find_hash_of_type(&hex_run(127), HashType::SHA512), None);
    assert_eq!(find_hash_of_type(&hex_run(129), HashType::SHA512), None);
}

#[test]
fn generic_checksum_boundaries() {
    // The generic checksum form takes any maximal hex run of 32 to 128
    // characters.
    assert_eq!(find_generic_checksum(&hex_run(32)), Some(hex_run(32)));
    assert_eq!(find_generic_checksum(&hex_run(77)), Some(hex_run(77)));
    assert_eq!(find_generic_checksum(&hex_run(128)), Some(hex_run(128)));
    assert_eq!(find_generic_checksum(&hex_run(31)), None);
    assert_eq!(find_generic_checksum(&hex_run(129)), None);
}

#[test]
fn base64_boundaries() {
    let b64 = |n: usize| "Q".repeat(n);
    assert_eq!(find_base64_digest(&b64(24)), Some(b64(24)));
    assert_eq!(find_base64_digest(&b64(88)), Some(b64(88)));
    assert_eq!(find_base64_digest(&b64(23)), None);
    assert_eq!(find_base64_digest(&b64(89)), None);
}

#[test]
fn digest_found_inside_surrounding_text() {
    let text = format!("tool-1.0.zip  {}  tool-1.1.zip", hex_run(64));
    assert_eq!(find_hash_of_type(&text, HashType::SHA256), Some(hex_run(64)));
    // A run embedded in a longer hex run is not a match.
    let glued = format!("bb{}", hex_run(64));
    assert_eq!(find_hash_of_type(&glued, HashType::SHA256), None);
}

#[test]
fn leftmost_run_wins() {
    let text = format!("{} then {}", "b".repeat(32), "c".repeat(32));
    assert_eq!(find_hash_of_type(&text, HashType::MD5), Some("b".repeat(32)));
}

#[test]
fn reference_text_resolution() {
    let text = format!("tool.zip {}", hex_run(64));
    assert_eq!(
        resolve_reference_text(&text, Some(HashType::SHA256)),
        Ok(hex_run(64))
    );
    assert_eq!(
        resolve_reference_text("no digest here", Some(HashType::SHA256)),
        Err(HashError::NotFound)
    );
    assert_eq!(resolve_reference_text(&text, None), Ok(hex_run(64)));
}

#[test]
fn dispatch_by_expected_algorithm() {
    let text = hex_run(40);
    assert_eq!(find_hash_in_text(&text, Some(HashType::SHA1)), Some(hex_run(40)));
    assert_eq!(find_hash_in_text(&text, Some(HashType::MD5)), None);
    // Unknown algorithm: the generic form is tried.
    assert_eq!(find_hash_in_text(&text, None), Some(hex_run(40)));
    assert_eq!(find_hash_in_text(&hex_run(20), None), None);
}
