//! String helpers shared by the substitution engine, cache naming and
//! hash comparison: all of them work on the character level.

use vstd::prelude::*;
use vstd::string::StrSliceExecFns;

verus! {

/// True when `pat` occurs in `s` starting at index `i`.
pub open spec fn occurs_at(s: Seq<char>, pat: Seq<char>, i: int) -> bool {
    0 <= i && i + pat.len() <= s.len() && s.subrange(i, i + pat.len() as int) == pat
}

/// True when `pat` occurs somewhere in `s`.
pub open spec fn occurs_in(s: Seq<char>, pat: Seq<char>) -> bool {
    exists|i: int| occurs_at(s, pat, i)
}

/// Leftmost-first literal replacement of every occurrence of `pat` in `s`
/// by `val`; scanning resumes after an inserted `val`, never inside it.
/// An empty pattern leaves the text unchanged.
pub open spec fn replace_seq(s: Seq<char>, pat: Seq<char>, val: Seq<char>) -> Seq<char>
    decreases s.len(),
{
    if pat.len() == 0 {
        s
    } else if s.len() < pat.len() {
        s
    } else if s.subrange(0, pat.len() as int) == pat {
        val + replace_seq(s.skip(pat.len() as int), pat, val)
    } else {
        seq![s[0]] + replace_seq(s.skip(1), pat, val)
    }
}

/// The characters of `s`, in order, as a vector.
pub fn chars_of(s: &str) -> (v: Vec<char>)
    ensures
        v@ == s@,
{
    let n = s.unicode_len();
    let mut v: Vec<char> = Vec::new();
    let mut i: usize = 0;
    while i < n
        invariant
            i <= n,
            n == s@.len(),
            v@ == s@.subrange(0, i as int),
        decreases n - i,
    {
        let c = s.get_char(i);
        v.push(c);
        proof {
            assert(v@ =~= s@.subrange(0, i + 1 as int));
        }
        i = i + 1;
    }
    proof {
        assert(v@ =~= s@);
    }
    v
}

/// Relies on std's `String::push`: appends the character to the end of
/// the string.
#[verifier::external_body]
pub fn push_char(s: &mut String, c: char)
    ensures
        final(s)@ == old(s)@.push(c),
{
    s.push(c);
}

/// A `String` with exactly the characters of `v`, in order.
pub fn string_of(v: &[char]) -> (s: String)
    ensures
        s@ == v@,
{
    let mut s = String::new();
    let mut i: usize = 0;
    while i < v.len()
        invariant
            i <= v@.len(),
            s@ == v@.subrange(0, i as int),
        decreases v@.len() - i,
    {
        push_char(&mut s, v[i]);
        proof {
            assert(s@ =~= v@.subrange(0, i + 1 as int));
        }
        i = i + 1;
    }
    proof {
        assert(s@ =~= v@);
    }
    s
}

/// Whether `pat` occurs in `s` at position `i`.
pub fn match_at(s: &Vec<char>, pat: &Vec<char>, i: usize) -> (b: bool)
    requires
        i + pat@.len() <= s@.len(),
    ensures
        b == occurs_at(s@, pat@, i as int),
{
    let n = s.len();
    let mut j: usize = 0;
    while j < pat.len()
        invariant
            j <= pat@.len(),
            n == s@.len(),
            i + pat@.len() <= s@.len(),
            forall|k: int| 0 <= k < j ==> s@[i + k] == pat@[k],
        decreases pat@.len() - j,
    {
        if s[i + j] != pat[j] {
            proof {
                assert(s@.subrange(i as int, i + pat@.len() as int)[j as int] == s@[i + j]);
            }
            return false;
        }
        j = j + 1;
    }
    proof {
        assert(s@.subrange(i as int, i + pat@.len() as int) =~= pat@);
    }
    true
}

/// Replaces every occurrence of `pat` in `s` by `val`, leftmost first.
pub fn replace_chars(s: &Vec<char>, pat: &Vec<char>, val: &Vec<char>) -> (r: Vec<char>)
    ensures
        r@ == replace_seq(s@, pat@, val@),
{
    if pat.len() == 0 {
        let r = s.clone();
        return r;
    }
    let mut out: Vec<char> = Vec::new();
    let mut i: usize = 0;
    proof {
        assert(s@.skip(0) =~= s@);
        assert(out@ + replace_seq(s@, pat@, val@) =~= replace_seq(s@, pat@, val@));
    }
    while i < s.len()
        invariant
            pat@.len() > 0,
            i <= s@.len(),
            replace_seq(s@, pat@, val@) == out@ + replace_seq(s@.skip(i as int), pat@, val@),
        decreases s@.len() - i,
    {
        let remaining = s.len() - i;
        if remaining >= pat.len() && match_at(s, pat, i) {
            proof {
                let rest = s@.skip(i as int);
                assert(rest.subrange(0, pat@.len() as int) =~= s@.subrange(
                    i as int,
                    i + pat@.len() as int,
                ));
                assert(rest.skip(pat@.len() as int) =~= s@.skip(i + pat@.len() as int));
                assert(replace_seq(rest, pat@, val@) == val@ + replace_seq(
                    s@.skip(i + pat@.len() as int),
                    pat@,
                    val@,
                ));
            }
            let mut k: usize = 0;
            let ghost out_before = out@;
            while k < val.len()
                invariant
                    k <= val@.len(),
                    out@ == out_before + val@.subrange(0, k as int),
                decreases val@.len() - k,
            {
                out.push(val[k]);
                proof {
                    assert(out@ =~= out_before + val@.subrange(0, k + 1 as int));
                }
                k = k + 1;
            }
            proof {
                assert(val@.subrange(0, val@.len() as int) =~= val@);
                assert((out_before + val@) + replace_seq(s@.skip(i + pat@.len() as int), pat@, val@)
                    =~= out_before + (val@ + replace_seq(
                    s@.skip(i + pat@.len() as int),
                    pat@,
                    val@,
                )));
            }
            i = i + pat.len();
        } else {
            proof {
                let rest = s@.skip(i as int);
                assert(rest.len() == s@.len() - i);
                if rest.len() >= pat@.len() {
                    assert(rest.subrange(0, pat@.len() as int) =~= s@.subrange(
                        i as int,
                        i + pat@.len() as int,
                    ));
                    assert(!occurs_at(s@, pat@, i as int));
                    assert(rest.subrange(0, pat@.len() as int) != pat@);
                }
                assert(rest[0] == s@[i as int]);
                assert(rest.skip(1) =~= s@.skip(i + 1));
                assert(replace_seq(rest, pat@, val@) == seq![s@[i as int]] + replace_seq(
                    s@.skip(i + 1),
                    pat@,
                    val@,
                ));
            }
            let c = s[i];
            out.push(c);
            proof {
                assert((out@ + replace_seq(s@.skip(i + 1), pat@, val@)) =~= (out@.drop_last()
                    + seq![s@[i as int]]) + replace_seq(s@.skip(i + 1), pat@, val@));
            }
            i = i + 1;
        }
    }
    proof {
        assert(s@.skip(i as int) =~= Seq::<char>::empty());
        assert(replace_seq(s@.skip(i as int), pat@, val@) == s@.skip(i as int));
        assert(out@ + s@.skip(i as int) =~= out@);
    }
    out
}

/// Replaces every occurrence of `pat` in `s` by `val`, leftmost first.
pub fn replace_str(s: &str, pat: &str, val: &str) -> (r: String)
    ensures
        r@ == replace_seq(s@, pat@, val@),
{
    let sv = chars_of(s);
    let pv = chars_of(pat);
    let vv = chars_of(val);
    let out = replace_chars(&sv, &pv, &vv);
    string_of(out.as_slice())
}

/// A copy of `s[i..j]`.
pub fn subvec(s: &Vec<char>, i: usize, j: usize) -> (r: Vec<char>)
    requires
        i <= j <= s@.len(),
    ensures
        r@ == s@.subrange(i as int, j as int),
{
    vstd::slice::slice_to_vec(vstd::slice::slice_subrange(s.as_slice(), i, j))
}

/// Index of the first occurrence of `c` in `s`, or -1 when absent.
pub open spec fn first_index_of(s: Seq<char>, c: char) -> int
    decreases s.len(),
{
    if s.len() == 0 {
        -1
    } else if s[0] == c {
        0
    } else {
        let r = first_index_of(s.skip(1), c);
        if r < 0 {
            -1
        } else {
            r + 1
        }
    }
}

/// Index of the last occurrence of `c` in `s`, or -1 when absent.
pub open spec fn last_index_of(s: Seq<char>, c: char) -> int
    decreases s.len(),
{
    if s.len() == 0 {
        -1
    } else if s.last() == c {
        s.len() - 1
    } else {
        last_index_of(s.drop_last(), c)
    }
}

/// The text before the first occurrence of `c`; all of `s` when absent.
pub open spec fn take_until(s: Seq<char>, c: char) -> Seq<char> {
    if first_index_of(s, c) < 0 {
        s
    } else {
        s.subrange(0, first_index_of(s, c))
    }
}

/// The text after the first occurrence of `c`; empty when absent.
pub open spec fn drop_past(s: Seq<char>, c: char) -> Seq<char> {
    if first_index_of(s, c) < 0 {
        Seq::empty()
    } else {
        s.skip(first_index_of(s, c) + 1)
    }
}

/// The text after the last occurrence of `c`; all of `s` when absent.
pub open spec fn after_last(s: Seq<char>, c: char) -> Seq<char> {
    s.skip(last_index_of(s, c) + 1)
}

/// The text before the last occurrence of `c`; all of `s` when absent.
pub open spec fn before_last(s: Seq<char>, c: char) -> Seq<char> {
    if last_index_of(s, c) < 0 {
        s
    } else {
        s.subrange(0, last_index_of(s, c))
    }
}

proof fn lemma_first_index_of(s: Seq<char>, c: char)
    ensures
        first_index_of(s, c) >= -1,
        first_index_of(s, c) >= 0 ==> {
            &&& first_index_of(s, c) < s.len()
            &&& s[first_index_of(s, c)] == c
            &&& forall|j: int| 0 <= j < first_index_of(s, c) ==> s[j] != c
        },
        first_index_of(s, c) < 0 ==> forall|j: int| 0 <= j < s.len() ==> s[j] != c,
    decreases s.len(),
{
    if s.len() > 0 && s[0] != c {
        lemma_first_index_of(s.skip(1), c);
        let r1 = first_index_of(s.skip(1), c);
        if r1 >= 0 {
            assert(s[r1 + 1] == s.skip(1)[r1]);
            assert forall|j: int| 0 <= j < r1 + 1 implies s[j] != c by {
                if j > 0 {
                    assert(s.skip(1)[j - 1] == s[j]);
                }
            }
        } else {
            assert forall|j: int| 0 <= j < s.len() implies s[j] != c by {
                if j > 0 {
                    assert(s.skip(1)[j - 1] == s[j]);
                }
            }
        }
    }
}

proof fn lemma_last_index_of(s: Seq<char>, c: char)
    ensures
        last_index_of(s, c) >= -1,
        last_index_of(s, c) >= 0 ==> {
            &&& last_index_of(s, c) < s.len()
            &&& s[last_index_of(s, c)] == c
            &&& forall|j: int| last_index_of(s, c) < j < s.len() ==> s[j] != c
        },
        last_index_of(s, c) < 0 ==> forall|j: int| 0 <= j < s.len() ==> s[j] != c,
    decreases s.len(),
{
    if s.len() > 0 && s.last() != c {
        lemma_last_index_of(s.drop_last(), c);
        let r1 = last_index_of(s.drop_last(), c);
        if r1 >= 0 {
            assert(s[r1] == s.drop_last()[r1]);
            assert forall|j: int| r1 < j < s.len() implies s[j] != c by {
                if j < s.len() - 1 {
                    assert(s.drop_last()[j] == s[j]);
                }
            }
        } else {
            assert forall|j: int| 0 <= j < s.len() implies s[j] != c by {
                if j < s.len() - 1 {
                    assert(s.drop_last()[j] == s[j]);
                }
            }
        }
    }
}

/// Splitting at a delimiter undoes joining with it: when the part before
/// the delimiter is free of it, `take_until` reads that part back and
/// `drop_past` reads back everything after it.
pub proof fn lemma_split_at_delimiter(p: Seq<char>, rest: Seq<char>, c: char)
    requires
        forall|i: int| 0 <= i < p.len() ==> p[i] != c,
    ensures
        take_until(p + seq![c] + rest, c) == p,
        drop_past(p + seq![c] + rest, c) == rest,
{
    let s = p + seq![c] + rest;
    lemma_first_index_of(s, c);
    let f = first_index_of(s, c);
    assert(s[p.len() as int] == c);
    if f < 0 {
        assert(s[p.len() as int] != c);
        assert(false);
    }
    if f < p.len() {
        assert(s[f] == p[f]);
        assert(false);
    }
    if f > p.len() {
        assert(s[p.len() as int] != c);
        assert(false);
    }
    assert(s.subrange(0, p.len() as int) =~= p);
    assert(s.skip(p.len() as int + 1) =~= rest);
}

/// Position of the first occurrence of `c` in `s`.
pub fn find_char(s: &Vec<char>, c: char) -> (r: Option<usize>)
    ensures
        match r {
            Some(i) => i == first_index_of(s@, c),
            None => first_index_of(s@, c) < 0,
        },
{
    proof {
        lemma_first_index_of(s@, c);
    }
    let mut i: usize = 0;
    while i < s.len()
        invariant
            i <= s@.len(),
            forall|j: int| 0 <= j < i ==> s@[j] != c,
            first_index_of(s@, c) >= 0 ==> {
                &&& first_index_of(s@, c) < s@.len()
                &&& s@[first_index_of(s@, c)] == c
                &&& forall|j: int| 0 <= j < first_index_of(s@, c) ==> s@[j] != c
            },
            first_index_of(s@, c) < 0 ==> forall|j: int| 0 <= j < s@.len() ==> s@[j] != c,
        decreases s@.len() - i,
    {
        if s[i] == c {
            return Some(i);
        }
        i = i + 1;
    }
    None
}

/// Position of the last occurrence of `c` in `s`.
pub fn rfind_char(s: &Vec<char>, c: char) -> (r: Option<usize>)
    ensures
        match r {
            Some(i) => i == last_index_of(s@, c),
            None => last_index_of(s@, c) < 0,
        },
{
    proof {
        lemma_last_index_of(s@, c);
    }
    let mut i: usize = s.len();
    while i > 0
        invariant
            i <= s@.len(),
            forall|j: int| i <= j < s@.len() ==> s@[j] != c,
            last_index_of(s@, c) >= 0 ==> {
                &&& last_index_of(s@, c) < s@.len()
                &&& s@[last_index_of(s@, c)] == c
                &&& forall|j: int| last_index_of(s@, c) < j < s@.len() ==> s@[j] != c
            },
            last_index_of(s@, c) < 0 ==> forall|j: int| 0 <= j < s@.len() ==> s@[j] != c,
        decreases i,
    {
        i = i - 1;
        if s[i] == c {
            return Some(i);
        }
    }
    None
}

/// Splits at the first occurrence of `c`: the part before it and the
/// part after it (the whole text and an empty rest when `c` is absent).
pub fn split_first(s: &Vec<char>, c: char) -> (r: (Vec<char>, Vec<char>))
    ensures
        r.0@ == take_until(s@, c),
        r.1@ == drop_past(s@, c),
{
    proof {
        lemma_first_index_of(s@, c);
    }
    let n = s.len();
    match find_char(s, c) {
        Some(i) => {
            let before = subvec(s, 0, i);
            let after = subvec(s, i + 1, n);
            proof {
                assert(after@ =~= s@.skip(i + 1));
            }
            (before, after)
        },
        None => {
            let before = s.clone();
            proof {
                assert(Seq::<char>::empty() =~= drop_past(s@, c));
            }
            (before, Vec::new())
        },
    }
}

/// The text after the last occurrence of `c`; all of `s` when absent.
pub fn suffix_after_last(s: &Vec<char>, c: char) -> (r: Vec<char>)
    ensures
        r@ == after_last(s@, c),
{
    proof {
        lemma_last_index_of(s@, c);
    }
    let n = s.len();
    match rfind_char(s, c) {
        Some(i) => {
            let r = subvec(s, i + 1, n);
            proof {
                assert(r@ =~= s@.skip(i + 1));
            }
            r
        },
        None => {
            let r = s.clone();
            proof {
                assert(r@ =~= s@);
                assert(last_index_of(s@, c) == -1);
                assert(s@.skip(0) =~= s@);
            }
            r
        },
    }
}

/// The text before the last occurrence of `c`; all of `s` when absent.
pub fn prefix_before_last(s: &Vec<char>, c: char) -> (r: Vec<char>)
    ensures
        r@ == before_last(s@, c),
{
    proof {
        lemma_last_index_of(s@, c);
    }
    match rfind_char(s, c) {
        Some(i) => subvec(s, 0, i),
        None => {
            let r = s.clone();
            proof {
                assert(r@ =~= s@);
            }
            r
        },
    }
}

/// The ASCII lower-case counterpart of `c`; other characters unchanged.
pub open spec fn lower_char(c: char) -> char {
    match c {
        'A' => 'a',
        'B' => 'b',
        'C' => 'c',
        'D' => 'd',
        'E' => 'e',
        'F' => 'f',
        'G' => 'g',
        'H' => 'h',
        'I' => 'i',
        'J' => 'j',
        'K' => 'k',
        'L' => 'l',
        'M' => 'm',
        'N' => 'n',
        'O' => 'o',
        'P' => 'p',
        'Q' => 'q',
        'R' => 'r',
        'S' => 's',
        'T' => 't',
        'U' => 'u',
        'V' => 'v',
        'W' => 'w',
        'X' => 'x',
        'Y' => 'y',
        'Z' => 'z',
        _ => c,
    }
}

/// `s` with every ASCII upper-case letter lowered.
pub open spec fn lower_seq(s: Seq<char>) -> Seq<char> {
    s.map_values(|c: char| lower_char(c))
}

/// ASCII lower-casing of a character vector.
pub fn lowercase_chars(s: &Vec<char>) -> (r: Vec<char>)
    ensures
        r@ == lower_seq(s@),
{
    let mut r: Vec<char> = Vec::new();
    let mut i: usize = 0;
    while i < s.len()
        invariant
            i <= s@.len(),
            r@ == lower_seq(s@.subrange(0, i as int)),
        decreases s@.len() - i,
    {
        let c = s[i];
        let l: char = match c {
            'A' => 'a',
            'B' => 'b',
            'C' => 'c',
            'D' => 'd',
            'E' => 'e',
            'F' => 'f',
            'G' => 'g',
            'H' => 'h',
            'I' => 'i',
            'J' => 'j',
            'K' => 'k',
            'L' => 'l',
            'M' => 'm',
            'N' => 'n',
            'O' => 'o',
            'P' => 'p',
            'Q' => 'q',
            'R' => 'r',
            'S' => 's',
            'T' => 't',
            'U' => 'u',
            'V' => 'v',
            'W' => 'w',
            'X' => 'x',
            'Y' => 'y',
            'Z' => 'z',
            _ => c,
        };
        r.push(l);
        proof {
            assert(r@ =~= lower_seq(s@.subrange(0, i + 1 as int)));
        }
        i = i + 1;
    }
    proof {
        assert(s@.subrange(0, i as int) =~= s@);
    }
    r
}

/// True when two string slices have the same characters.
pub fn str_eq(a: &str, b: &str) -> (r: bool)
    ensures
        r == (a@ == b@),
{
    let ao = a.to_owned();
    let bo = b.to_owned();
    ao.eq(&bo)
}

/// No character occurs in both `a` and `b`.
pub open spec fn chars_disjoint(a: Seq<char>, b: Seq<char>) -> bool {
    forall|i: int, j: int| 0 <= i < a.len() && 0 <= j < b.len() ==> a[i] != b[j]
}

/// A prefix of the replacement's result that contains no character of
/// `val` is a prefix of the original text.
proof fn lemma_replace_prefix(s: Seq<char>, pat: Seq<char>, val: Seq<char>, k: int)
    requires
        pat.len() > 0,
        val.len() > 0,
        0 <= k <= replace_seq(s, pat, val).len(),
        forall|j: int| 0 <= j < k ==> !val.contains(#[trigger] replace_seq(s, pat, val)[j]),
    ensures
        k <= s.len(),
        replace_seq(s, pat, val).subrange(0, k) == s.subrange(0, k),
    decreases s.len(),
{
    let r = replace_seq(s, pat, val);
    if s.len() < pat.len() {
        assert(r.subrange(0, k) =~= s.subrange(0, k));
    } else if s.subrange(0, pat.len() as int) == pat {
        if k > 0 {
            assert(r[0] == val[0]);
            assert(val.contains(r[0]));
            assert(false);
        } else {
            assert(r.subrange(0, 0) =~= s.subrange(0, 0));
        }
    } else {
        if k == 0 {
            assert(r.subrange(0, 0) =~= s.subrange(0, 0));
        } else {
            let s1 = s.skip(1);
            let r1 = replace_seq(s1, pat, val);
            assert(r == seq![s[0]] + r1);
            assert forall|j: int| 0 <= j < k - 1 implies !val.contains(#[trigger] r1[j]) by {
                assert(r[j + 1] == r1[j]);
            }
            lemma_replace_prefix(s1, pat, val, k - 1);
            assert(r1.subrange(0, k - 1) == s1.subrange(0, k - 1));
            assert forall|j: int| 0 <= j < k implies r.subrange(0, k)[j] == s.subrange(0, k)[j] by {
                if j == 0 {
                    assert(r[0] == s[0]);
                } else {
                    assert(r[j] == r1[j - 1]);
                    assert(r1.subrange(0, k - 1)[j - 1] == s1.subrange(0, k - 1)[j - 1]);
                    assert(s1[j - 1] == s[j]);
                }
            }
            assert(r.subrange(0, k) =~= s.subrange(0, k));
        }
    }
}

/// After replacement, the pattern no longer occurs anywhere in the text,
/// provided the pattern and the replacement value share no character.
/// With shared characters an occurrence can straddle an inserted value,
/// so the claim is restricted to disjoint texts.
pub proof fn lemma_replace_eliminates(s: Seq<char>, pat: Seq<char>, val: Seq<char>)
    requires
        pat.len() > 0,
        val.len() > 0,
        chars_disjoint(pat, val),
    ensures
        !occurs_in(replace_seq(s, pat, val), pat),
    decreases s.len(),
{
    let r = replace_seq(s, pat, val);
    if occurs_in(r, pat) {
        let i = choose|i: int| occurs_at(r, pat, i);
        assert(r.subrange(i, i + pat.len() as int) == pat);
        if s.len() < pat.len() {
            assert(r == s);
            assert(false);
        } else if s.subrange(0, pat.len() as int) == pat {
            let rest = replace_seq(s.skip(pat.len() as int), pat, val);
            assert(r == val + rest);
            if i < val.len() {
                assert(r[i] == val[i]);
                assert(pat[0] == r.subrange(i, i + pat.len() as int)[0]);
                assert(pat[0] == val[i]);
                assert(false);
            } else {
                lemma_replace_eliminates(s.skip(pat.len() as int), pat, val);
                assert forall|j: int| 0 <= j < pat.len() implies rest.subrange(
                    i - val.len(),
                    i - val.len() + pat.len() as int,
                )[j] == pat[j] by {
                    assert(r[i + j] == rest[i - val.len() + j]);
                    assert(r.subrange(i, i + pat.len() as int)[j] == r[i + j]);
                }
                assert(rest.subrange(i - val.len(), i - val.len() + pat.len() as int) =~= pat);
                assert(occurs_at(rest, pat, i - val.len()));
                assert(false);
            }
        } else {
            let s1 = s.skip(1);
            let r1 = replace_seq(s1, pat, val);
            assert(r == seq![s[0]] + r1);
            if i >= 1 {
                lemma_replace_eliminates(s1, pat, val);
                assert forall|j: int| 0 <= j < pat.len() implies r1.subrange(
                    i - 1,
                    i - 1 + pat.len() as int,
                )[j] == pat[j] by {
                    assert(r[i + j] == r1[i - 1 + j]);
                    assert(r.subrange(i, i + pat.len() as int)[j] == r[i + j]);
                }
                assert(r1.subrange(i - 1, i - 1 + pat.len() as int) =~= pat);
                assert(occurs_at(r1, pat, i - 1));
                assert(false);
            } else {
                assert forall|j: int| 0 <= j < pat.len() implies !val.contains(
                    #[trigger] r[j],
                ) by {
                    assert(r[j] == r.subrange(0, pat.len() as int)[j]);
                    assert(r.subrange(0, pat.len() as int) =~= r.subrange(
                        i,
                        i + pat.len() as int,
                    ));
                    assert(r[j] == pat[j]);
                    if val.contains(r[j]) {
                        let v = choose|v: int| 0 <= v < val.len() && val[v] == r[j];
                        assert(pat[j] != val[v]);
                        assert(false);
                    }
                }
                lemma_replace_prefix(s, pat, val, pat.len() as int);
                assert(s.subrange(0, pat.len() as int) =~= r.subrange(0, pat.len() as int));
                assert(r.subrange(0, pat.len() as int) =~= pat);
                assert(false);
            }
        }
    }
}

} // verus!
