//! Locating a digest inside fetched text: a digest is a maximal run of
//! hex (or base64) characters whose length fits the expected algorithm,
//! so a run of 33 hex characters is no MD5 digest.

use vstd::prelude::*;

use crate::hash::{is_hex_digit, HashError, HashType};
use crate::strutil::{chars_of, string_of, subvec};

verus! {

/// The character classes digests are spelled in.
#[derive(Debug, Clone, Copy, PartialEq, Eq, Structural)]
pub enum CharClass {
    /// Hex digits of either case.
    Hex,
    /// The base64 alphabet, including `+`, `/` and the `=` padding.
    Base64,
}

/// Whether `c` belongs to the base64 alphabet.
pub open spec fn is_base64_char(c: char) -> bool {
    ||| (65 <= c as u32 && c as u32 <= 90)
    ||| (97 <= c as u32 && c as u32 <= 122)
    ||| (48 <= c as u32 && c as u32 <= 57)
    ||| c == '+'
    ||| c == '/'
    ||| c == '='
}

/// Whether `c` belongs to the given class.
pub open spec fn in_class(cl: CharClass, c: char) -> bool {
    match cl {
        CharClass::Hex => is_hex_digit(c),
        CharClass::Base64 => is_base64_char(c),
    }
}

/// Whether `c` belongs to the given class.
pub fn is_in_class(cl: CharClass, c: char) -> (r: bool)
    ensures
        r == in_class(cl, c),
{
    match cl {
        CharClass::Hex => {
            let v = c as u32;
            (48 <= v && v <= 57) || (97 <= v && v <= 102) || (65 <= v && v <= 70)
        },
        CharClass::Base64 => {
            let v = c as u32;
            (65 <= v && v <= 90) || (97 <= v && v <= 122) || (48 <= v && v <= 57) || c == '+'
                || c == '/' || c == '='
        },
    }
}

/// A maximal run of exactly `l` characters of the class, starting at `i`:
/// every character inside belongs to the class and the characters on both
/// sides, where they exist, do not.
pub open spec fn class_run_at(cl: CharClass, s: Seq<char>, i: int, l: int) -> bool {
    &&& 0 <= i
    &&& 0 <= l
    &&& i + l <= s.len()
    &&& forall|j: int| i <= j < i + l ==> in_class(cl, #[trigger] s[j])
    &&& (i == 0 || !in_class(cl, s[i - 1]))
    &&& (i + l == s.len() || !in_class(cl, s[i + l]))
}

/// The leftmost maximal run of class characters whose length lies in
/// `min_len ..= max_len`, as its start and length.
pub fn find_class_run(text: &Vec<char>, cl: CharClass, min_len: usize, max_len: usize) -> (r:
    Option<(usize, usize)>)
    requires
        1 <= min_len <= max_len,
    ensures
        match r {
            Some(pos) => {
                &&& class_run_at(cl, text@, pos.0 as int, pos.1 as int)
                &&& min_len <= pos.1 <= max_len
                &&& forall|i2: int, l2: int|
                    0 <= i2 < pos.0 ==> !(#[trigger] class_run_at(cl, text@, i2, l2) && min_len
                        <= l2 <= max_len)
            },
            None => forall|i2: int, l2: int|
                !(#[trigger] class_run_at(cl, text@, i2, l2) && min_len <= l2 <= max_len),
        },
{
    let n = text.len();
    let mut i: usize = 0;
    while i < n
        invariant
            n == text@.len(),
            i <= n,
            1 <= min_len <= max_len,
            forall|i2: int, l2: int|
                0 <= i2 < i ==> !(#[trigger] class_run_at(cl, text@, i2, l2) && min_len <= l2
                    <= max_len),
            i == 0 || i == n || !(in_class(cl, text@[i - 1]) && in_class(cl, text@[i as int])),
        decreases n - i,
    {
        if is_in_class(cl, text[i]) {
            let mut j: usize = i + 1;
            let mut scanning = true;
            while scanning && j < n
                invariant
                    n == text@.len(),
                    i < j <= n,
                    forall|k: int| i <= k < j ==> in_class(cl, #[trigger] text@[k]),
                    !scanning ==> j < n && !in_class(cl, text@[j as int]),
                decreases n - j, (if scanning { 1int } else { 0int }),
            {
                if is_in_class(cl, text[j]) {
                    j = j + 1;
                } else {
                    scanning = false;
                }
            }
            let l = j - i;
            if min_len <= l && l <= max_len {
                proof {
                    assert(class_run_at(cl, text@, i as int, l as int));
                }
                return Some((i, l));
            }
            proof {
                assert forall|i2: int, l2: int|
                    0 <= i2 < j implies !(#[trigger] class_run_at(cl, text@, i2, l2) && min_len
                    <= l2 <= max_len) by {
                    if class_run_at(cl, text@, i2, l2) && min_len <= l2 <= max_len {
                        if i2 < i {
                        } else if i2 > i {
                            assert(in_class(cl, text@[i2 - 1]));
                            assert(false);
                        } else {
                            if l2 < l {
                                assert(in_class(cl, text@[i2 + l2]));
                                assert(false);
                            } else if l2 > l {
                                if j == n {
                                    assert(i2 + l2 > n);
                                    assert(false);
                                } else {
                                    assert(in_class(cl, text@[j as int]));
                                    assert(false);
                                }
                            } else {
                                assert(false);
                            }
                        }
                    }
                }
            }
            i = j;
        } else {
            i = i + 1;
        }
    }
    proof {
        assert forall|i2: int, l2: int| !(#[trigger] class_run_at(cl, text@, i2, l2) && min_len
            <= l2 <= max_len) by {
            if class_run_at(cl, text@, i2, l2) && min_len <= l2 <= max_len {
                assert(i2 + l2 <= n);
                assert(i2 < n);
                assert(false);
            }
        }
    }
    None
}

/// The leftmost digest spelled in class characters whose run length lies
/// in `min_len ..= max_len`, as text.
pub fn find_digest_run(text: &str, cl: CharClass, min_len: usize, max_len: usize) -> (r: Option<
    String,
>)
    requires
        1 <= min_len <= max_len,
    ensures
        match r {
            Some(m) => exists|i: int, l: int|
                {
                    &&& #[trigger] class_run_at(cl, text@, i, l)
                    &&& min_len <= l <= max_len
                    &&& m@ == text@.subrange(i, i + l)
                    &&& forall|i2: int, l2: int|
                        0 <= i2 < i ==> !(#[trigger] class_run_at(cl, text@, i2, l2) && min_len
                            <= l2 <= max_len)
                },
            None => forall|i2: int, l2: int|
                !(#[trigger] class_run_at(cl, text@, i2, l2) && min_len <= l2 <= max_len),
        },
{
    let chars = chars_of(text);
    match find_class_run(&chars, cl, min_len, max_len) {
        Some((i, l)) => {
            let m = string_of(subvec(&chars, i, i + l).as_slice());
            proof {
                assert(class_run_at(cl, text@, i as int, l as int) && min_len <= l <= max_len
                    && m@ == text@.subrange(i as int, i as int + l as int));
            }
            Some(m)
        },
        None => None,
    }
}

/// The hex digest of the expected algorithm inside fetched text: a
/// maximal hex run of exactly twice the digest length.
pub fn find_hash_of_type(text: &str, t: HashType) -> (r: Option<String>)
    ensures
        match r {
            Some(m) => exists|i: int, l: int|
                {
                    &&& #[trigger] class_run_at(CharClass::Hex, text@, i, l)
                    &&& l == 2 * t.spec_digest_len()
                    &&& m@ == text@.subrange(i, i + l)
                },
            None => forall|i2: int, l2: int|
                !(#[trigger] class_run_at(CharClass::Hex, text@, i2, l2) && l2 == 2
                    * t.spec_digest_len()),
        },
{
    let len = 2 * t.digest_len();
    find_digest_run(text, CharClass::Hex, len, len)
}

/// The generic checksum form: a maximal hex run of 32 to 128 characters.
pub fn find_generic_checksum(text: &str) -> (r: Option<String>)
    ensures
        match r {
            Some(m) => exists|i: int, l: int|
                {
                    &&& #[trigger] class_run_at(CharClass::Hex, text@, i, l)
                    &&& 32 <= l <= 128
                    &&& m@ == text@.subrange(i, i + l)
                },
            None => forall|i2: int, l2: int|
                !(#[trigger] class_run_at(CharClass::Hex, text@, i2, l2) && 32 <= l2 <= 128),
        },
{
    find_digest_run(text, CharClass::Hex, 32, 128)
}

/// The base64 digest form: a maximal base64 run of 24 to 88 characters.
pub fn find_base64_digest(text: &str) -> (r: Option<String>)
    ensures
        match r {
            Some(m) => exists|i: int, l: int|
                {
                    &&& #[trigger] class_run_at(CharClass::Base64, text@, i, l)
                    &&& 24 <= l <= 88
                    &&& m@ == text@.subrange(i, i + l)
                },
            None => forall|i2: int, l2: int|
                !(#[trigger] class_run_at(CharClass::Base64, text@, i2, l2) && 24 <= l2 <= 88),
        },
{
    find_digest_run(text, CharClass::Base64, 24, 88)
}

/// Locates a digest in fetched text: by the expected algorithm's exact
/// length when one is known, by the generic checksum form otherwise.
pub fn find_hash_in_text(text: &str, expected: Option<HashType>) -> (r: Option<String>)
    ensures
        match expected {
            Some(t) => match r {
                Some(m) => exists|i: int, l: int|
                    {
                        &&& #[trigger] class_run_at(CharClass::Hex, text@, i, l)
                        &&& l == 2 * t.spec_digest_len()
                        &&& m@ == text@.subrange(i, i + l)
                    },
                None => forall|i2: int, l2: int|
                    !(#[trigger] class_run_at(CharClass::Hex, text@, i2, l2) && l2 == 2
                        * t.spec_digest_len()),
            },
            None => match r {
                Some(m) => exists|i: int, l: int|
                    {
                        &&& #[trigger] class_run_at(CharClass::Hex, text@, i, l)
                        &&& 32 <= l <= 128
                        &&& m@ == text@.subrange(i, i + l)
                    },
                None => forall|i2: int, l2: int|
                    !(#[trigger] class_run_at(CharClass::Hex, text@, i2, l2) && 32 <= l2 <= 128),
            },
        },
{
    match expected {
        Some(t) => find_hash_of_type(text, t),
        None => find_generic_checksum(text),
    }
}

/// Resolves a reference-mode hash: the digest is located inside the
/// fetched secondary text, by the expected algorithm's exact length or
/// by the generic checksum form; a text that holds no digest fails.
pub fn resolve_reference_text(text: &str, expected: Option<HashType>) -> (r: Result<
    String,
    HashError,
>)
    ensures
        match r {
            Ok(m) => match expected {
                Some(t) => exists|i: int, l: int|
                    {
                        &&& #[trigger] class_run_at(CharClass::Hex, text@, i, l)
                        &&& l == 2 * t.spec_digest_len()
                        &&& m@ == text@.subrange(i, i + l)
                    },
                None => exists|i: int, l: int|
                    {
                        &&& #[trigger] class_run_at(CharClass::Hex, text@, i, l)
                        &&& 32 <= l <= 128
                        &&& m@ == text@.subrange(i, i + l)
                    },
            },
            Err(e) => e == HashError::NotFound && match expected {
                Some(t) => forall|i2: int, l2: int|
                    !(#[trigger] class_run_at(CharClass::Hex, text@, i2, l2) && l2 == 2
                        * t.spec_digest_len()),
                None => forall|i2: int, l2: int|
                    !(#[trigger] class_run_at(CharClass::Hex, text@, i2, l2) && 32 <= l2 <= 128),
            },
        },
{
    match find_hash_in_text(text, expected) {
        Some(m) => Ok(m),
        None => Err(HashError::NotFound),
    }
}

} // verus!
