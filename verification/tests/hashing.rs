use md5::Digest;
use sfsu::hash::{
    digest_bytes, hex_decode, hex_encode, resolve_literal, strip_hash_prefix, verify_hash,
    HashError, HashExtraction, HashExtractionOrArrayOfHashExtractions, HashType, Hasher,
};
use sfsu::strutil::chars_of;
use sfsu::substitutions::SubstitutionMap;

#[test]
fn digest_matches_reference_implementations() {
    // The acquirer's digests equal a reference implementation's, for a
    // fixed byte sequence, under all four algorithms.
    let data = b"abc";

    let mut h = Hasher::start(HashType::MD5);
    h.update(data);
    assert_eq!(hex_encode(h.finish().as_slice()), "900150983cd24fb0d6963f7d28e17f72");

    let mut h = Hasher::start(HashType::SHA1);
    h.update(data);
    assert_eq!(hex_encode(h.finish().as_slice()), "a9993e364706816aba3e25717850c26c9cd0d89d");

    let mut h = Hasher::start(HashType::SHA256);
    h.update(data);
    assert_eq!(
        hex_encode(h.finish().as_slice()),
        "ba7816bf8f01cfea414140de5dae2223b00361a396177a9cb410ff61f20015ad"
    );

    let mut h = Hasher::start(HashType::SHA512);
    h.update(data);
    assert_eq!(
        hex_encode(h.finish().as_slice()),
        "ddaf35a193617abacc417349ae20413112e6fa4e89a97ea20a9eeee64b55d39a\
         2192992a274fc1a836ba3c23a3feebbd454d4423643ce80e2a9ac94fa54ca49f"
    );
}

#[test]
fn rolling_digest_equals_one_shot() {
    // Feeding bytes in chunks yields the digest of their concatenation,
    // equal to the crates' own one-shot digests.
    let chunks: [&[u8]; 3] = [b"hello ", b"verified ", b"world"];
    let whole = b"hello verified world";

    let mut h = Hasher::start(HashType::SHA256);
    for chunk in chunks {
        h.update(chunk);
    }
    let rolled = h.finish();
    let reference = sha2::Sha256::digest(whole);
    assert_eq!(rolled.as_slice(), &reference[..]);

    let mut h = Hasher::start(HashType::MD5);
    for chunk in chunks {
        h.update(chunk);
    }
    let reference = md5::Md5::digest(whole);
    assert_eq!(h.finish().as_slice(), &reference[..]);
}

#[test]
fn one_shot_digest_agrees_with_rolling_and_reference() {
    let data = b"one shot";
    assert_eq!(digest_bytes(HashType::SHA1, data).as_slice(), &sha1::Sha1::digest(data)[..]);
    assert_eq!(digest_bytes(HashType::SHA512, data).as_slice(), &sha2::Sha512::digest(data)[..]);
    for t in [HashType::MD5, HashType::SHA1, HashType::SHA256, HashType::SHA512] {
        let mut h = Hasher::start(t);
        h.update(data);
        assert_eq!(h.finish(), digest_bytes(t, data));
    }
}

#[test]
fn hex_round_trip() {
    let bytes = vec![0x00u8, 0x0f, 0xa5, 0xff];
    let hex = hex_encode(bytes.as_slice());
    assert_eq!(hex, "000fa5ff");
    let decoded = hex_decode(&chars_of(&hex)).expect("decodes");
    assert_eq!(decoded, bytes);
}

#[test]
fn hex_decode_rejects_bad_input() {
    assert!(hex_decode(&chars_of("abc")).is_none());
    assert!(hex_decode(&chars_of("zz")).is_none());
    assert!(hex_decode(&chars_of("ABCD")).is_some());
}

#[test]
fn prefix_stripping_is_case_insensitive() {
    let (stripped, declared) = strip_hash_prefix("SHA256:AB12");
    assert_eq!(stripped, "ab12");
    assert_eq!(declared, Some(HashType::SHA256));

    let (stripped, declared) = strip_hash_prefix("Md5:FFEE");
    assert_eq!(stripped, "ffee");
    assert_eq!(declared, Some(HashType::MD5));

    let (stripped, declared) = strip_hash_prefix("DEADBEEF");
    assert_eq!(stripped, "deadbeef");
    assert_eq!(declared, None);

    // An unknown prefix is no prefix: the whole text is the hash.
    let (stripped, declared) = strip_hash_prefix("crc32:1234");
    assert_eq!(stripped, "crc32:1234");
    assert_eq!(declared, None);
}

#[test]
fn verify_hash_compares_case_insensitively() {
    let digest = sha2::Sha256::digest(b"artifact")[..].to_vec();
    let hex = hex_encode(digest.as_slice());
    assert!(verify_hash(&digest, &hex));
    assert!(verify_hash(&digest, &hex.to_uppercase()));
    assert!(verify_hash(&digest, &format!("sha256:{hex}")));
    assert!(verify_hash(&digest, &format!("SHA256:{}", hex.to_uppercase())));
    assert!(!verify_hash(&digest, "sha256:00"));
}

#[test]
fn resolve_literal_decodes_and_infers() {
    let map = SubstitutionMap::new();
    let (t, bytes) = resolve_literal("900150983cd24fb0d6963f7d28e17f72", &map).expect("resolves");
    assert_eq!(t, HashType::MD5);
    assert_eq!(bytes.len(), 16);

    let (t, _) = resolve_literal(
        "sha512:ddaf35a193617abacc417349ae20413112e6fa4e89a97ea20a9eeee64b55d39a\
         2192992a274fc1a836ba3c23a3feebbd454d4423643ce80e2a9ac94fa54ca49f",
        &map,
    )
    .expect("resolves");
    assert_eq!(t, HashType::SHA512);
}

#[test]
fn resolve_literal_substitutes_first() {
    let mut map = SubstitutionMap::new();
    map.insert(
        String::from("$sum"),
        String::from("ba7816bf8f01cfea414140de5dae2223b00361a396177a9cb410ff61f20015ad"),
    );
    let (t, bytes) = resolve_literal("$sum", &map).expect("resolves");
    assert_eq!(t, HashType::SHA256);
    assert_eq!(bytes.len(), 32);
}

#[test]
fn resolve_literal_errors() {
    let map = SubstitutionMap::new();
    assert_eq!(resolve_literal("xyz", &map), Err(HashError::InvalidHex));
    assert_eq!(resolve_literal("abcd", &map), Err(HashError::UnknownLength));
}

#[test]
fn hash_extraction_as_object() {
    let url_form = HashExtractionOrArrayOfHashExtractions::Url(String::from("https://x/sums.txt"));
    assert!(url_form.as_object().is_none());
    let object_form = HashExtractionOrArrayOfHashExtractions::HashExtraction(
        HashExtraction::Literal(String::from("$sum")),
    );
    assert!(matches!(object_form.as_object(), Some(HashExtraction::Literal(_))));
}

#[test]
fn digest_lengths_and_default() {
    assert_eq!(HashType::MD5.digest_len(), 16);
    assert_eq!(HashType::SHA1.digest_len(), 20);
    assert_eq!(HashType::SHA256.digest_len(), 32);
    assert_eq!(HashType::SHA512.digest_len(), 64);
    assert_eq!(HashType::default(), HashType::SHA256);
    assert_eq!(HashType::from_digest_len(20), Some(HashType::SHA1));
    assert_eq!(HashType::from_digest_len(21), None);
}
