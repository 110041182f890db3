//! Typed digests: the supported algorithms, a rolling hasher over the
//! outside digest implementations, the hex codec, and the comparison of a
//! computed digest against a manifest's declared hash.

use md5::Digest;
use vstd::prelude::*;

use crate::strutil::{chars_of, drop_past, lower_seq, lowercase_chars, split_first, str_eq,
    string_of, take_until};
use crate::substitutions::{spec_substitute, SubstituteBuilder, SubstitutionMap};

verus! {

/// A digest algorithm, each with its fixed digest length.
#[derive(Debug, Clone, Copy, PartialEq, Eq, Structural)]
pub enum HashType {
    /// 16-byte digests.
    MD5,
    /// 20-byte digests.
    SHA1,
    /// 32-byte digests.
    SHA256,
    /// 64-byte digests.
    SHA512,
}

impl HashType {
    /// The digest length of this algorithm, in bytes.
    pub open spec fn spec_digest_len(self) -> nat {
        match self {
            HashType::MD5 => 16,
            HashType::SHA1 => 20,
            HashType::SHA256 => 32,
            HashType::SHA512 => 64,
        }
    }

    /// The digest length of this algorithm, in bytes.
    pub fn digest_len(self) -> (n: usize)
        ensures
            n == self.spec_digest_len(),
    {
        match self {
            HashType::MD5 => 16,
            HashType::SHA1 => 20,
            HashType::SHA256 => 32,
            HashType::SHA512 => 64,
        }
    }

    /// The algorithm whose digests are `len` bytes long.
    pub fn from_digest_len(len: usize) -> (r: Option<HashType>)
        ensures
            r == spec_from_digest_len(len as nat),
    {
        match len {
            16 => Some(HashType::MD5),
            20 => Some(HashType::SHA1),
            32 => Some(HashType::SHA256),
            64 => Some(HashType::SHA512),
            _ => None,
        }
    }
}

/// The algorithm whose digests are `len` bytes long, if any.
pub open spec fn spec_from_digest_len(len: nat) -> Option<HashType> {
    if len == 16 {
        Some(HashType::MD5)
    } else if len == 20 {
        Some(HashType::SHA1)
    } else if len == 32 {
        Some(HashType::SHA256)
    } else if len == 64 {
        Some(HashType::SHA512)
    } else {
        None
    }
}

impl Default for HashType {
    /// The algorithm assumed when a manifest does not name one.
    fn default() -> (r: Self)
        ensures
            r == HashType::SHA256,
    {
        HashType::SHA256
    }
}

/// The MD5 digest of a byte sequence.
pub uninterp spec fn md5_of(data: Seq<u8>) -> Seq<u8>;

/// The SHA-1 digest of a byte sequence.
pub uninterp spec fn sha1_of(data: Seq<u8>) -> Seq<u8>;

/// The SHA-256 digest of a byte sequence.
pub uninterp spec fn sha256_of(data: Seq<u8>) -> Seq<u8>;

/// The SHA-512 digest of a byte sequence.
pub uninterp spec fn sha512_of(data: Seq<u8>) -> Seq<u8>;

/// The digest of a byte sequence under the given algorithm.
pub open spec fn digest_spec(t: HashType, data: Seq<u8>) -> Seq<u8> {
    match t {
        HashType::MD5 => md5_of(data),
        HashType::SHA1 => sha1_of(data),
        HashType::SHA256 => sha256_of(data),
        HashType::SHA512 => sha512_of(data),
    }
}

/// Relies on the `md-5` crate's `Md5` through `digest::Digest::digest`:
/// the 16-byte MD5 digest, a function of the input bytes alone.
#[verifier::external_body]
pub fn md5_digest(data: &[u8]) -> (r: Vec<u8>)
    ensures
        r@ == md5_of(data@),
        r@.len() == 16,
{
    md5::Md5::digest(data)[..].to_vec()
}

/// Relies on the `sha1` crate's `Sha1` through `digest::Digest::digest`:
/// the 20-byte SHA-1 digest, a function of the input bytes alone.
#[verifier::external_body]
pub fn sha1_digest(data: &[u8]) -> (r: Vec<u8>)
    ensures
        r@ == sha1_of(data@),
        r@.len() == 20,
{
    sha1::Sha1::digest(data)[..].to_vec()
}

/// Relies on the `sha2` crate's `Sha256` through `digest::Digest::digest`:
/// the 32-byte SHA-256 digest, a function of the input bytes alone.
#[verifier::external_body]
pub fn sha256_digest(data: &[u8]) -> (r: Vec<u8>)
    ensures
        r@ == sha256_of(data@),
        r@.len() == 32,
{
    sha2::Sha256::digest(data)[..].to_vec()
}

/// Relies on the `sha2` crate's `Sha512` through `digest::Digest::digest`:
/// the 64-byte SHA-512 digest, a function of the input bytes alone.
#[verifier::external_body]
pub fn sha512_digest(data: &[u8]) -> (r: Vec<u8>)
    ensures
        r@ == sha512_of(data@),
        r@.len() == 64,
{
    sha2::Sha512::digest(data)[..].to_vec()
}

/// The one-shot digest of a byte sequence under the given algorithm;
/// equal to what a rolling hasher yields over the same bytes.
pub fn digest_bytes(t: HashType, data: &[u8]) -> (r: Vec<u8>)
    ensures
        r@ == digest_spec(t, data@),
        r@.len() == t.spec_digest_len(),
{
    match t {
        HashType::MD5 => md5_digest(data),
        HashType::SHA1 => sha1_digest(data),
        HashType::SHA256 => sha256_digest(data),
        HashType::SHA512 => sha512_digest(data),
    }
}

/// The MD5 hasher state of the `md-5` crate.
#[verifier::external_type_specification]
#[verifier::external_body]
pub struct ExMd5(md5::Md5);

/// The SHA-1 hasher state of the `sha1` crate.
#[verifier::external_type_specification]
#[verifier::external_body]
pub struct ExSha1(sha1::Sha1);

/// The SHA-256 hasher state of the `sha2` crate.
#[verifier::external_type_specification]
#[verifier::external_body]
pub struct ExSha256(sha2::Sha256);

/// The SHA-512 hasher state of the `sha2` crate.
#[verifier::external_type_specification]
#[verifier::external_body]
pub struct ExSha512(sha2::Sha512);

enum DigestState {
    Md5(md5::Md5),
    Sha1(sha1::Sha1),
    Sha256(sha2::Sha256),
    Sha512(sha2::Sha512),
}

/// A rolling digest: bytes are fed in chunks and the digest of their
/// concatenation is produced at the end. The sequence of bytes fed so
/// far is tracked in ghost state.
pub struct Hasher {
    state: DigestState,
    fed: Ghost<Seq<u8>>,
}

/// The algorithm a digest state computes.
spec fn state_algo(s: DigestState) -> HashType {
    match s {
        DigestState::Md5(_) => HashType::MD5,
        DigestState::Sha1(_) => HashType::SHA1,
        DigestState::Sha256(_) => HashType::SHA256,
        DigestState::Sha512(_) => HashType::SHA512,
    }
}

/// Relies on `digest::Digest::new` for `Md5`, `Sha1`, `Sha256` and
/// `Sha512`: a fresh state of the asked-for algorithm that has processed
/// no bytes.
#[verifier::external_body]
fn fresh_state(t: HashType) -> (s: DigestState)
    ensures
        state_algo(s) == t,
{
    match t {
        HashType::MD5 => DigestState::Md5(md5::Md5::new()),
        HashType::SHA1 => DigestState::Sha1(sha1::Sha1::new()),
        HashType::SHA256 => DigestState::Sha256(sha2::Sha256::new()),
        HashType::SHA512 => DigestState::Sha512(sha2::Sha512::new()),
    }
}

impl Hasher {
    /// The algorithm this hasher computes.
    pub closed spec fn algo(self) -> HashType {
        state_algo(self.state)
    }

    /// The bytes fed so far, in order.
    pub closed spec fn fed(self) -> Seq<u8> {
        self.fed@
    }

    /// A fresh hasher for the given algorithm, with no bytes fed.
    pub fn start(t: HashType) -> (h: Hasher)
        ensures
            h.algo() == t,
            h.fed() == Seq::<u8>::empty(),
    {
        Hasher { state: fresh_state(t), fed: Ghost(Seq::empty()) }
    }

    /// Relies on `digest::Digest::update` for the four algorithms:
    /// feeding bytes incrementally processes their concatenation.
    #[verifier::external_body]
    pub fn update(&mut self, data: &[u8])
        ensures
            final(self).algo() == old(self).algo(),
            final(self).fed() == old(self).fed() + data@,
    {
        match &mut self.state {
            DigestState::Md5(d) => d.update(data),
            DigestState::Sha1(d) => d.update(data),
            DigestState::Sha256(d) => d.update(data),
            DigestState::Sha512(d) => d.update(data),
        }
    }

    /// Relies on `digest::Digest::finalize` for the four algorithms: the
    /// digest of all bytes fed, equal to the one-shot digest of their
    /// concatenation.
    #[verifier::external_body]
    pub fn finish(self) -> (r: Vec<u8>)
        ensures
            r@ == digest_spec(self.algo(), self.fed()),
            r@.len() == self.algo().spec_digest_len(),
    {
        match self.state {
            DigestState::Md5(d) => d.finalize()[..].to_vec(),
            DigestState::Sha1(d) => d.finalize()[..].to_vec(),
            DigestState::Sha256(d) => d.finalize()[..].to_vec(),
            DigestState::Sha512(d) => d.finalize()[..].to_vec(),
        }
    }
}

/// The lower-case hex character of a value below 16.
pub open spec fn hex_char_of(n: int) -> char {
    if n == 0 {
        '0'
    } else if n == 1 {
        '1'
    } else if n == 2 {
        '2'
    } else if n == 3 {
        '3'
    } else if n == 4 {
        '4'
    } else if n == 5 {
        '5'
    } else if n == 6 {
        '6'
    } else if n == 7 {
        '7'
    } else if n == 8 {
        '8'
    } else if n == 9 {
        '9'
    } else if n == 10 {
        'a'
    } else if n == 11 {
        'b'
    } else if n == 12 {
        'c'
    } else if n == 13 {
        'd'
    } else if n == 14 {
        'e'
    } else {
        'f'
    }
}

/// The lower-case hex spelling of a byte sequence: two characters per
/// byte, high half first.
pub open spec fn hex_of_bytes(b: Seq<u8>) -> Seq<char>
    decreases b.len(),
{
    if b.len() == 0 {
        Seq::empty()
    } else {
        seq![hex_char_of(b[0] as int / 16), hex_char_of(b[0] as int % 16)] + hex_of_bytes(
            b.skip(1),
        )
    }
}

/// The value of a hex character, or -1 when it is no hex digit.
pub open spec fn hex_val(c: char) -> int {
    match c {
        '0' => 0,
        '1' => 1,
        '2' => 2,
        '3' => 3,
        '4' => 4,
        '5' => 5,
        '6' => 6,
        '7' => 7,
        '8' => 8,
        '9' => 9,
        'a' => 10,
        'b' => 11,
        'c' => 12,
        'd' => 13,
        'e' => 14,
        'f' => 15,
        'A' => 10,
        'B' => 11,
        'C' => 12,
        'D' => 13,
        'E' => 14,
        'F' => 15,
        _ => -1,
    }
}

/// Whether `c` is a hex digit, of either case.
pub open spec fn is_hex_digit(c: char) -> bool {
    hex_val(c) >= 0
}

/// The bytes spelled by a hex text, two characters per byte.
pub open spec fn bytes_of_hex(s: Seq<char>) -> Seq<u8>
    decreases s.len(),
{
    if s.len() < 2 {
        Seq::empty()
    } else {
        seq![(hex_val(s[0]) * 16 + hex_val(s[1])) as u8] + bytes_of_hex(s.skip(2))
    }
}

/// Whether every character of `s` is a hex digit.
pub open spec fn all_hex(s: Seq<char>) -> bool {
    forall|i: int| 0 <= i < s.len() ==> is_hex_digit(#[trigger] s[i])
}

/// The lower-case hex spelling of `b`.
pub fn hex_encode(b: &[u8]) -> (r: String)
    ensures
        r@ == hex_of_bytes(b@),
{
    let mut out: Vec<char> = Vec::new();
    let mut i: usize = 0;
    proof {
        assert(b@.skip(0) =~= b@);
        assert(out@ + hex_of_bytes(b@) =~= hex_of_bytes(b@));
    }
    while i < b.len()
        invariant
            i <= b@.len(),
            hex_of_bytes(b@) == out@ + hex_of_bytes(b@.skip(i as int)),
        decreases b@.len() - i,
    {
        let byte = b[i];
        let hi = hex_char_exec(byte / 16);
        let lo = hex_char_exec(byte % 16);
        proof {
            let rest = b@.skip(i as int);
            assert(rest[0] == b@[i as int]);
            assert(rest.skip(1) =~= b@.skip(i + 1));
            assert(hex_of_bytes(rest) == seq![
                hex_char_of(b@[i as int] as int / 16),
                hex_char_of(b@[i as int] as int % 16),
            ] + hex_of_bytes(b@.skip(i + 1)));
        }
        out.push(hi);
        out.push(lo);
        proof {
            assert(out@ + hex_of_bytes(b@.skip(i + 1)) =~= (out@.drop_last().drop_last() + seq![
                hex_char_of(b@[i as int] as int / 16),
                hex_char_of(b@[i as int] as int % 16),
            ]) + hex_of_bytes(b@.skip(i + 1)));
        }
        i = i + 1;
    }
    proof {
        assert(b@.skip(i as int) =~= Seq::<u8>::empty());
        assert(out@ + hex_of_bytes(b@.skip(i as int)) =~= out@);
    }
    string_of(out.as_slice())
}

/// The lower-case hex character of a value below 16.
fn hex_char_exec(n: u8) -> (c: char)
    requires
        n < 16,
    ensures
        c == hex_char_of(n as int),
{
    match n {
        0 => '0',
        1 => '1',
        2 => '2',
        3 => '3',
        4 => '4',
        5 => '5',
        6 => '6',
        7 => '7',
        8 => '8',
        9 => '9',
        10 => 'a',
        11 => 'b',
        12 => 'c',
        13 => 'd',
        14 => 'e',
        _ => 'f',
    }
}

/// The value of a hex character, or 255 when it is no hex digit.
fn hex_val_exec(c: char) -> (n: u8)
    ensures
        is_hex_digit(c) ==> n == hex_val(c),
        !is_hex_digit(c) ==> n == 255,
{
    match c {
        '0' => 0,
        '1' => 1,
        '2' => 2,
        '3' => 3,
        '4' => 4,
        '5' => 5,
        '6' => 6,
        '7' => 7,
        '8' => 8,
        '9' => 9,
        'a' => 10,
        'b' => 11,
        'c' => 12,
        'd' => 13,
        'e' => 14,
        'f' => 15,
        'A' => 10,
        'B' => 11,
        'C' => 12,
        'D' => 13,
        'E' => 14,
        'F' => 15,
        _ => 255,
    }
}

/// Decodes a hex text into bytes: `Some` exactly when the text has even
/// length and holds hex digits only.
pub fn hex_decode(s: &Vec<char>) -> (r: Option<Vec<u8>>)
    ensures
        match r {
            Some(b) => {
                &&& s@.len() % 2 == 0
                &&& all_hex(s@)
                &&& b@ == bytes_of_hex(s@)
                &&& b@.len() == s@.len() / 2
            },
            None => !(s@.len() % 2 == 0 && all_hex(s@)),
        },
{
    let n = s.len();
    if n % 2 != 0 {
        return None;
    }
    let mut out: Vec<u8> = Vec::new();
    let mut i: usize = 0;
    proof {
        assert(s@.skip(0) =~= s@);
        assert(out@ + bytes_of_hex(s@) =~= bytes_of_hex(s@));
    }
    while i < n
        invariant
            i <= n,
            n == s@.len(),
            i % 2 == 0,
            n % 2 == 0,
            out@.len() == i / 2,
            forall|j: int| 0 <= j < i ==> is_hex_digit(#[trigger] s@[j]),
            bytes_of_hex(s@) == out@ + bytes_of_hex(s@.skip(i as int)),
        decreases n - i,
    {
        let hi = hex_val_exec(s[i]);
        let lo = hex_val_exec(s[i + 1]);
        if hi == 255 || lo == 255 {
            return None;
        }
        proof {
            let rest = s@.skip(i as int);
            assert(rest[0] == s@[i as int]);
            assert(rest[1] == s@[i + 1]);
            assert(rest.skip(2) =~= s@.skip(i + 2));
            assert(bytes_of_hex(rest) == seq![
                (hex_val(s@[i as int]) * 16 + hex_val(s@[i + 1])) as u8,
            ] + bytes_of_hex(s@.skip(i + 2)));
        }
        out.push(hi * 16 + lo);
        proof {
            assert(out@ + bytes_of_hex(s@.skip(i + 2)) =~= (out@.drop_last() + seq![
                (hex_val(s@[i as int]) * 16 + hex_val(s@[i + 1])) as u8,
            ]) + bytes_of_hex(s@.skip(i + 2)));
        }
        i = i + 2;
    }
    proof {
        assert(s@.skip(i as int) =~= Seq::<char>::empty());
        assert(out@ + bytes_of_hex(s@.skip(i as int)) =~= out@);
    }
    Some(out)
}

/// A declared hash with an optional algorithm-name prefix, lowered: the
/// text after `"sha256:"` and its kin, or the whole text lowered when no
/// known prefix is present.
pub open spec fn stripped_hash(s: Seq<char>) -> Seq<char> {
    let head = lower_seq(take_until(s, ':'));
    if head == "md5"@ || head == "sha1"@ || head == "sha256"@ || head == "sha512"@ {
        lower_seq(drop_past(s, ':'))
    } else {
        lower_seq(s)
    }
}

/// The declared algorithm named by a hash prefix, if one is present.
pub open spec fn declared_type(s: Seq<char>) -> Option<HashType> {
    let head = lower_seq(take_until(s, ':'));
    if head == "md5"@ {
        Some(HashType::MD5)
    } else if head == "sha1"@ {
        Some(HashType::SHA1)
    } else if head == "sha256"@ {
        Some(HashType::SHA256)
    } else if head == "sha512"@ {
        Some(HashType::SHA512)
    } else {
        None
    }
}

/// Lowers a declared hash and strips its optional case-insensitive
/// algorithm-name prefix; also reports the named algorithm, if any.
pub fn strip_hash_prefix(s: &str) -> (r: (String, Option<HashType>))
    ensures
        r.0@ == stripped_hash(s@),
        r.1 == declared_type(s@),
{
    let all = chars_of(s);
    let (head, tail) = split_first(&all, ':');
    let low_head = string_of(lowercase_chars(&head).as_slice());
    let declared: Option<HashType> = if str_eq(low_head.as_str(), "md5") {
        Some(HashType::MD5)
    } else if str_eq(low_head.as_str(), "sha1") {
        Some(HashType::SHA1)
    } else if str_eq(low_head.as_str(), "sha256") {
        Some(HashType::SHA256)
    } else if str_eq(low_head.as_str(), "sha512") {
        Some(HashType::SHA512)
    } else {
        None
    };
    match declared {
        Some(t) => (string_of(lowercase_chars(&tail).as_slice()), Some(t)),
        None => (string_of(lowercase_chars(&all).as_slice()), None),
    }
}

/// Whether a computed digest equals a declared hash, compared as hex
/// text, case-insensitively, after stripping an optional algorithm-name
/// prefix from the declared side.
pub open spec fn hash_matches(computed: Seq<u8>, declared: Seq<char>) -> bool {
    stripped_hash(declared) == hex_of_bytes(computed)
}

/// Compares a computed digest against a manifest's declared hash.
pub fn verify_hash(computed: &Vec<u8>, declared: &str) -> (r: bool)
    ensures
        r == hash_matches(computed@, declared@),
{
    let (stripped, _) = strip_hash_prefix(declared);
    let hex = hex_encode(computed.as_slice());
    proof {
        lemma_hex_of_bytes_lower(computed@);
    }
    let lowered = string_of(lowercase_chars(&chars_of(hex.as_str())).as_slice());
    str_eq(lowered.as_str(), stripped.as_str())
}

/// Hex spellings produced by `hex_of_bytes` are already lower-case.
proof fn lemma_hex_of_bytes_lower(b: Seq<u8>)
    ensures
        lower_seq(hex_of_bytes(b)) == hex_of_bytes(b),
    decreases b.len(),
{
    if b.len() == 0 {
        assert(lower_seq(hex_of_bytes(b)) =~= hex_of_bytes(b));
    } else {
        lemma_hex_of_bytes_lower(b.skip(1));
        assert(lower_seq(hex_of_bytes(b)) =~= hex_of_bytes(b));
    }
}

/// How a manifest states an expected digest.
#[derive(Debug, Clone)]
pub enum HashExtraction {
    /// A templated hex text that, once substituted, spells the digest,
    /// with an optional algorithm-name prefix.
    Literal(String),
    /// A secondary resource whose fetched text holds the digest.
    Reference {
        /// The templated URL of the secondary resource.
        url: String,
        /// How the digest is to be drawn from the fetched text, when the
        /// manifest names a mode.
        mode: Option<String>,
    },
}

/// A manifest's hash-extraction field: either a bare secondary URL or a
/// full extraction object.
#[derive(Debug, Clone)]
pub enum HashExtractionOrArrayOfHashExtractions {
    /// A bare secondary-resource URL.
    Url(String),
    /// A full extraction object.
    HashExtraction(HashExtraction),
}

impl HashExtractionOrArrayOfHashExtractions {
    /// The field as a single extraction object; `None` for the bare URL
    /// form.
    pub fn as_object(&self) -> (r: Option<&HashExtraction>)
        ensures
            match self {
                HashExtractionOrArrayOfHashExtractions::Url(_) => r is None,
                HashExtractionOrArrayOfHashExtractions::HashExtraction(h) => r == Some(h),
            },
    {
        match self {
            HashExtractionOrArrayOfHashExtractions::Url(_) => None,
            HashExtractionOrArrayOfHashExtractions::HashExtraction(hash) => Some(hash),
        }
    }
}

/// Why a declared hash could not be resolved.
#[derive(Debug, Clone, PartialEq, Eq, Structural)]
pub enum HashError {
    /// The substituted text is not a hex spelling of a digest.
    InvalidHex,
    /// The digest length fits no supported algorithm.
    UnknownLength,
    /// The secondary resource's text holds no digest.
    NotFound,
}

/// Resolves a literal hash template: substitutes the map into it, strips
/// an optional algorithm-name prefix, decodes the hex text, and infers
/// the algorithm from the prefix or from the digest length.
pub fn resolve_literal(template: &str, map: &SubstitutionMap) -> (r: Result<
    (HashType, Vec<u8>),
    HashError,
>)
    ensures
        ({
            let substituted = spec_substitute(template@, map@, false);
            let hex = stripped_hash(substituted);
            match r {
                Ok((t, b)) => {
                    &&& hex.len() % 2 == 0
                    &&& all_hex(hex)
                    &&& b@ == bytes_of_hex(hex)
                    &&& match declared_type(substituted) {
                        Some(d) => t == d,
                        None => Some(t) == spec_from_digest_len(b@.len()),
                    }
                },
                Err(HashError::InvalidHex) => !(hex.len() % 2 == 0 && all_hex(hex)),
                Err(HashError::UnknownLength) => {
                    &&& hex.len() % 2 == 0
                    &&& all_hex(hex)
                    &&& declared_type(substituted) is None
                    &&& spec_from_digest_len(bytes_of_hex(hex).len()) is None
                },
                Err(HashError::NotFound) => false,
            }
        }),
{
    let substituted = map.substitute(
        SubstituteBuilder::Text(template.to_owned()),
        false,
    );
    let (stripped, declared) = strip_hash_prefix(substituted.as_str());
    let hex = chars_of(stripped.as_str());
    match hex_decode(&hex) {
        None => Err(HashError::InvalidHex),
        Some(bytes) => {
            match declared {
                Some(t) => Ok((t, bytes)),
                None => {
                    match HashType::from_digest_len(bytes.len()) {
                        Some(t) => Ok((t, bytes)),
                        None => Err(HashError::UnknownLength),
                    }
                },
            }
        },
    }
}

} // verus!
