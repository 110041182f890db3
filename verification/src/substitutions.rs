//! The version-substitution templating engine: placeholder tokens derived
//! from a package version and a download URL are replaced, as literal
//! substrings, inside templated manifest fields.

use vstd::prelude::*;
use vstd::string::StringExecFns;

use crate::strutil::{
    after_last, before_last, chars_of, drop_past, prefix_before_last, replace_chars, replace_seq,
    split_first, string_of, suffix_after_last, take_until,
};

verus! {

/// One placeholder token bound to its replacement text.
#[derive(Debug, Clone)]
pub struct Binding {
    /// The placeholder text that is searched for, e.g. `"$version"`.
    pub token: String,
    /// The text every occurrence of the token is replaced with.
    pub value: String,
}

/// An ordered token-to-text mapping with unique tokens. Later insertions
/// overwrite the value of an existing token in place, keeping its position.
#[derive(Debug, Clone)]
pub struct SubstitutionMap {
    /// The bindings, in insertion order, with unique tokens.
    pub entries: Vec<Binding>,
}

impl View for SubstitutionMap {
    type V = Seq<(Seq<char>, Seq<char>)>;

    open spec fn view(&self) -> Seq<(Seq<char>, Seq<char>)> {
        self.entries@.map_values(|b: Binding| (b.token@, b.value@))
    }
}

/// Index of the first binding of `token` in `m`, or -1 when absent.
pub open spec fn token_index(m: Seq<(Seq<char>, Seq<char>)>, token: Seq<char>) -> int
    decreases m.len(),
{
    if m.len() == 0 {
        -1
    } else if m[0].0 == token {
        0
    } else {
        let r = token_index(m.skip(1), token);
        if r < 0 {
            -1
        } else {
            r + 1
        }
    }
}

/// `m` with `token` bound to `value`: overwritten in place when the token
/// is already bound, appended at the end otherwise.
pub open spec fn spec_insert(
    m: Seq<(Seq<char>, Seq<char>)>,
    token: Seq<char>,
    value: Seq<char>,
) -> Seq<(Seq<char>, Seq<char>)> {
    if token_index(m, token) < 0 {
        m.push((token, value))
    } else {
        m.update(token_index(m, token), (token, value))
    }
}

/// The replacement text actually inserted for a binding: the bound value,
/// escaped for use inside a regular expression when `regex_escape` holds.
pub open spec fn applied_value(value: Seq<char>, regex_escape: bool) -> Seq<char> {
    if regex_escape {
        regex_escaped_spec(value)
    } else {
        value
    }
}

/// The result of substituting every binding of `m`, in order, into `s`.
pub open spec fn spec_substitute(
    s: Seq<char>,
    m: Seq<(Seq<char>, Seq<char>)>,
    regex_escape: bool,
) -> Seq<char>
    decreases m.len(),
{
    if m.len() == 0 {
        s
    } else {
        spec_substitute(
            replace_seq(s, m[0].0, applied_value(m[0].1, regex_escape)),
            m.skip(1),
            regex_escape,
        )
    }
}

/// True for the characters that regular expressions give significance to.
pub open spec fn is_regex_meta(c: char) -> bool {
    ||| c == '\\'
    ||| c == '.'
    ||| c == '+'
    ||| c == '*'
    ||| c == '?'
    ||| c == '('
    ||| c == ')'
    ||| c == '|'
    ||| c == '['
    ||| c == ']'
    ||| c == '{'
    ||| c == '}'
    ||| c == '^'
    ||| c == '$'
    ||| c == '#'
    ||| c == '&'
    ||| c == '-'
    ||| c == '~'
}

/// `s` with a backslash put before every regex meta character.
pub open spec fn regex_escaped_spec(s: Seq<char>) -> Seq<char>
    decreases s.len(),
{
    if s.len() == 0 {
        s
    } else if is_regex_meta(s[0]) {
        seq!['\\', s[0]] + regex_escaped_spec(s.skip(1))
    } else {
        seq![s[0]] + regex_escaped_spec(s.skip(1))
    }
}

/// Relies on `regex::escape`: the result is the input with a backslash
/// put before each character that has significance in a regular
/// expression (`\ . + * ? ( ) | [ ] { } ^ $ # & - ~`), all other
/// characters kept unchanged.
#[verifier::external_body]
fn regex_escape(s: &str) -> (r: String)
    ensures
        r@ == regex_escaped_spec(s@),
{
    regex::escape(s)
}

impl SubstitutionMap {
    /// An empty substitution map.
    pub fn new() -> (m: SubstitutionMap)
        ensures
            m@ == Seq::<(Seq<char>, Seq<char>)>::empty(),
    {
        let m = SubstitutionMap { entries: Vec::new() };
        proof {
            assert(m@ =~= Seq::<(Seq<char>, Seq<char>)>::empty());
        }
        m
    }

    /// Binds `token` to `value`, overwriting an earlier binding in place.
    pub fn insert(&mut self, token: String, value: String)
        ensures
            final(self)@ == spec_insert(old(self)@, token@, value@),
    {
        proof {
            lemma_token_index(old(self)@, token@);
        }
        let mut i: usize = 0;
        let n = self.entries.len();
        while i < n
            invariant
                i <= n,
                n == self.entries@.len(),
                self == old(self),
                forall|j: int| 0 <= j < i ==> self@[j].0 != token@,
                token_index(self@, token@) >= 0 ==> {
                    &&& token_index(self@, token@) < self@.len()
                    &&& self@[token_index(self@, token@)].0 == token@
                    &&& forall|j: int| 0 <= j < token_index(self@, token@) ==> self@[j].0 != token@
                },
                token_index(self@, token@) < 0 ==> forall|j: int|
                    0 <= j < self@.len() ==> self@[j].0 != token@,
            decreases n - i,
        {
            if compare_str(&self.entries[i].token, &token) {
                proof {
                    assert(self@[i as int].0 == token@);
                    let ti = token_index(self@, token@);
                    if ti < 0 {
                        assert(self@[i as int].0 != token@);
                        assert(false);
                    } else if ti < i {
                        assert(self@[ti].0 != token@);
                        assert(false);
                    } else if ti > i {
                        assert(self@[i as int].0 != token@);
                        assert(false);
                    }
                    assert(token_index(self@, token@) == i);
                }
                let ghost t = token@;
                let ghost v = value@;
                self.entries.set(i, Binding { token, value });
                proof {
                    assert(self@ =~= old(self)@.update(i as int, (t, v)));
                }
                return ;
            }
            i = i + 1;
        }
        let ghost t = token@;
        let ghost v = value@;
        self.entries.push(Binding { token, value });
        proof {
            assert(self@ =~= old(self)@.push((t, v)));
        }
    }

    /// Binds the version-derived tokens: the full version text, and its
    /// major, minor, patch and pre-release parts.
    pub fn append_version(&mut self, version: &Version)
        requires
            version.wf(),
        ensures
            final(self)@ == spec_insert(
                spec_insert(
                    spec_insert(
                        spec_insert(
                            spec_insert(old(self)@, "$version"@, version.text@),
                            "$majorVersion"@,
                            version_major(version.text@),
                        ),
                        "$minorVersion"@,
                        version_minor(version.text@),
                    ),
                    "$patchVersion"@,
                    version_patch(version.text@),
                ),
                "$preReleaseVersion"@,
                version_pre_release(version.text@),
            ),
    {
        self.insert(String::from_str("$version"), version.text.clone());
        self.insert(String::from_str("$majorVersion"), version.major.clone());
        self.insert(String::from_str("$minorVersion"), version.minor.clone());
        self.insert(String::from_str("$patchVersion"), version.patch.clone());
        self.insert(String::from_str("$preReleaseVersion"), version.pre_release.clone());
    }

    /// Binds the URL-derived tokens: the full URL, its final path segment,
    /// that segment without its extension, and the extension alone.
    pub fn append_url(&mut self, url: &str)
        ensures
            final(self)@ == spec_insert(
                spec_insert(
                    spec_insert(
                        spec_insert(old(self)@, "$url"@, url@),
                        "$basename"@,
                        url_leaf(url@),
                    ),
                    "$filename"@,
                    url_stem(url@),
                ),
                "$extension"@,
                url_extension(url@),
            ),
    {
        let leaf = leaf_of_url(url);
        let stem = stem_of_leaf(&leaf);
        let ext = extension_of_leaf(&leaf);
        self.insert(String::from_str("$url"), url.to_owned());
        self.insert(String::from_str("$basename"), string_of(leaf.as_slice()));
        self.insert(String::from_str("$filename"), string_of(stem.as_slice()));
        self.insert(String::from_str("$extension"), string_of(ext.as_slice()));
    }

    /// A map holding the version-derived tokens followed by the
    /// URL-derived tokens; on a collision the URL-derived binding wins.
    pub fn from_all(version: &Version, url: &str) -> (m: SubstitutionMap)
        requires
            version.wf(),
        ensures
            m@ == spec_insert(
                spec_insert(
                    spec_insert(
                        spec_insert(
                            spec_insert(
                                spec_insert(
                                    spec_insert(
                                        spec_insert(
                                            spec_insert(
                                                Seq::<(Seq<char>, Seq<char>)>::empty(),
                                                "$version"@,
                                                version.text@,
                                            ),
                                            "$majorVersion"@,
                                            version_major(version.text@),
                                        ),
                                        "$minorVersion"@,
                                        version_minor(version.text@),
                                    ),
                                    "$patchVersion"@,
                                    version_patch(version.text@),
                                ),
                                "$preReleaseVersion"@,
                                version_pre_release(version.text@),
                            ),
                            "$url"@,
                            url@,
                        ),
                        "$basename"@,
                        url_leaf(url@),
                    ),
                    "$filename"@,
                    url_stem(url@),
                ),
                "$extension"@,
                url_extension(url@),
            ),
    {
        let mut m = SubstitutionMap::new();
        m.append_version(version);
        m.append_url(url);
        m
    }

    /// Substitutes every binding of this map, in insertion order, into the
    /// builder's text.
    pub fn substitute(&self, builder: SubstituteBuilder, regex_escape: bool) -> (r: String)
        ensures
            r@ == match builder {
                SubstituteBuilder::Text(s) => spec_substitute(s@, self@, regex_escape),
            },
    {
        builder.substitute(self, regex_escape)
    }
}

/// True when the views of two strings are equal.
fn compare_str(a: &String, b: &String) -> (r: bool)
    ensures
        r == (a@ == b@),
{
    a.eq(b)
}

proof fn lemma_token_index(m: Seq<(Seq<char>, Seq<char>)>, token: Seq<char>)
    ensures
        token_index(m, token) >= -1,
        token_index(m, token) >= 0 ==> {
            &&& token_index(m, token) < m.len()
            &&& m[token_index(m, token)].0 == token
            &&& forall|j: int| 0 <= j < token_index(m, token) ==> m[j].0 != token
        },
        token_index(m, token) < 0 ==> forall|j: int| 0 <= j < m.len() ==> m[j].0 != token,
    decreases m.len(),
{
    if m.len() > 0 && m[0].0 != token {
        lemma_token_index(m.skip(1), token);
        let r1 = token_index(m.skip(1), token);
        if r1 >= 0 {
            assert(m[r1 + 1] == m.skip(1)[r1]);
            assert forall|j: int| 0 <= j < r1 + 1 implies m[j].0 != token by {
                if j > 0 {
                    assert(m.skip(1)[j - 1] == m[j]);
                }
            }
        } else {
            assert forall|j: int| 0 <= j < m.len() implies m[j].0 != token by {
                if j > 0 {
                    assert(m.skip(1)[j - 1] == m[j]);
                }
            }
        }
    }
}

/// The builder carrying the text a substitution is applied to.
pub enum SubstituteBuilder {
    /// A plain text template.
    Text(String),
}

impl SubstituteBuilder {
    /// Applies every binding of `params`, in order, to the carried text:
    /// each token is replaced by its value as a literal substring, the
    /// value first escaped for regular-expression use when `regex_escape`
    /// is set. A value inserted by one binding may itself be rewritten by
    /// a later binding; that rescanning is deliberate.
    pub fn substitute(self, params: &SubstitutionMap, regex_escape: bool) -> (r: String)
        ensures
            r@ == match self {
                SubstituteBuilder::Text(s) => spec_substitute(s@, params@, regex_escape),
            },
    {
        match self {
            SubstituteBuilder::Text(entity) => {
                let ghost m = params@;
                let ghost s0 = entity@;
                let mut cur = chars_of(entity.as_str());
                let n = params.entries.len();
                let mut i: usize = 0;
                proof {
                    assert(m.skip(0) =~= m);
                }
                while i < n
                    invariant
                        i <= n,
                        n == params.entries@.len(),
                        m == params@,
                        spec_substitute(s0, m, regex_escape) == spec_substitute(
                            cur@,
                            m.skip(i as int),
                            regex_escape,
                        ),
                    decreases n - i,
                {
                    let token = chars_of(params.entries[i].token.as_str());
                    let value = if regex_escape {
                        chars_of(regex_escape_str(params.entries[i].value.as_str()).as_str())
                    } else {
                        chars_of(params.entries[i].value.as_str())
                    };
                    proof {
                        assert(value@ == applied_value(m[i as int].1, regex_escape));
                        assert(m.skip(i as int)[0] == m[i as int]);
                        assert(m.skip(i as int).skip(1) =~= m.skip(i + 1));
                    }
                    cur = replace_chars(&cur, &token, &value);
                    i = i + 1;
                }
                proof {
                    assert(m.skip(n as int) =~= Seq::<(Seq<char>, Seq<char>)>::empty());
                }
                string_of(cur.as_slice())
            },
        }
    }
}

/// Applies the escaping used when a substituted value must stand inside
/// a regular expression.
fn regex_escape_str(s: &str) -> (r: String)
    ensures
        r@ == regex_escaped_spec(s@),
{
    regex_escape(s)
}

/// Substituting a map with one binding is exactly literal replacement of
/// that token by its value.
pub proof fn lemma_substitute_single_binding(s: Seq<char>, token: Seq<char>, value: Seq<char>)
    ensures
        spec_substitute(s, seq![(token, value)], false) == replace_seq(s, token, value),
{
    let m = seq![(token, value)];
    assert(m.skip(1) =~= Seq::<(Seq<char>, Seq<char>)>::empty());
    assert(spec_substitute(replace_seq(s, token, value), m.skip(1), false) == replace_seq(
        s,
        token,
        value,
    ));
}

/// Substituting a token whose replacement value shares no character with
/// it leaves no occurrence of the token behind: every literal occurrence
/// is replaced. A version number like `"1.2.3"` shares no character with
/// a token like `"$version"`, so a substituted template holds the token
/// nowhere.
pub proof fn lemma_substitute_eliminates_token(s: Seq<char>, token: Seq<char>, value: Seq<char>)
    requires
        token.len() > 0,
        value.len() > 0,
        crate::strutil::chars_disjoint(token, value),
    ensures
        !crate::strutil::occurs_in(spec_substitute(s, seq![(token, value)], false), token),
{
    lemma_substitute_single_binding(s, token, value);
    crate::strutil::lemma_replace_eliminates(s, token, value);
}

/// The dotted core of a version text: everything before the first `-`.
pub open spec fn version_core(s: Seq<char>) -> Seq<char> {
    take_until(s, '-')
}

/// The pre-release part of a version text: everything after the first
/// `-`; empty when there is none.
pub open spec fn version_pre_release(s: Seq<char>) -> Seq<char> {
    drop_past(s, '-')
}

/// The part of the dotted core before the first `.`.
pub open spec fn version_major(s: Seq<char>) -> Seq<char> {
    take_until(version_core(s), '.')
}

/// The part of the dotted core between the first and the second `.`.
pub open spec fn version_minor(s: Seq<char>) -> Seq<char> {
    take_until(drop_past(version_core(s), '.'), '.')
}

/// The part of the dotted core after the second `.`.
pub open spec fn version_patch(s: Seq<char>) -> Seq<char> {
    drop_past(drop_past(version_core(s), '.'), '.')
}

/// A package version, decomposed once at construction into the parts the
/// substitution tokens are built from.
#[derive(Debug, Clone)]
pub struct Version {
    /// The full version text, e.g. `"1.2.3-beta"`.
    pub text: String,
    /// The part of the dotted core before the first `.`.
    pub major: String,
    /// The part between the first and the second `.` of the dotted core.
    pub minor: String,
    /// The part after the second `.` of the dotted core.
    pub patch: String,
    /// The part after the first `-`; empty when there is none.
    pub pre_release: String,
}

impl Version {
    /// The decomposed parts agree with the full text.
    pub open spec fn wf(&self) -> bool {
        &&& self.major@ == version_major(self.text@)
        &&& self.minor@ == version_minor(self.text@)
        &&& self.patch@ == version_patch(self.text@)
        &&& self.pre_release@ == version_pre_release(self.text@)
    }

    /// Decomposes a version text.
    pub fn new(text: String) -> (v: Version)
        ensures
            v.wf(),
            v.text@ == text@,
    {
        let all = chars_of(text.as_str());
        let (core, pre) = split_first(&all, '-');
        let (major, rest) = split_first(&core, '.');
        let (minor, patch) = split_first(&rest, '.');
        Version {
            text,
            major: string_of(major.as_slice()),
            minor: string_of(minor.as_slice()),
            patch: string_of(patch.as_slice()),
            pre_release: string_of(pre.as_slice()),
        }
    }
}

/// The URL text up to its query or fragment part.
pub open spec fn url_trimmed(s: Seq<char>) -> Seq<char> {
    take_until(take_until(s, '?'), '#')
}

/// The final path segment of a URL: the text after the last `/` of the
/// URL without its query and fragment parts.
pub open spec fn url_leaf(s: Seq<char>) -> Seq<char> {
    after_last(url_trimmed(s), '/')
}

/// The final path segment without its extension.
pub open spec fn url_stem(s: Seq<char>) -> Seq<char> {
    before_last(url_leaf(s), '.')
}

/// The extension of the final path segment: the text after the last `.`,
/// or the whole segment when it has none.
pub open spec fn url_extension(s: Seq<char>) -> Seq<char> {
    after_last(url_leaf(s), '.')
}

/// The final path segment of a URL.
pub fn leaf_of_url(url: &str) -> (r: Vec<char>)
    ensures
        r@ == url_leaf(url@),
{
    let all = chars_of(url);
    let (no_query, _) = split_first(&all, '?');
    let (trimmed, _) = split_first(&no_query, '#');
    suffix_after_last(&trimmed, '/')
}

/// The leaf without its extension.
pub fn stem_of_leaf(leaf: &Vec<char>) -> (r: Vec<char>)
    ensures
        r@ == before_last(leaf@, '.'),
{
    prefix_before_last(leaf, '.')
}

/// The extension of the leaf; the whole leaf when it has no `.`.
pub fn extension_of_leaf(leaf: &Vec<char>) -> (r: Vec<char>)
    ensures
        r@ == after_last(leaf@, '.'),
{
    suffix_after_last(leaf, '.')
}

/// Substitution applied to a value in place or by move.
pub trait Substitute: Sized + View<V = Seq<char>> {
    /// Replaces this value by its substituted form.
    fn substitute(&mut self, params: &SubstitutionMap, regex_escape: bool)
        ensures
            final(self)@ == spec_substitute(old(self)@, params@, regex_escape),
    ;

    /// The substituted form of this value.
    fn into_substituted(self, params: &SubstitutionMap, regex_escape: bool) -> (r: Self)
        ensures
            r@ == spec_substitute(self@, params@, regex_escape),
    ;
}

impl Substitute for String {
    fn substitute(&mut self, params: &SubstitutionMap, regex_escape: bool) {
        let substituted = self.clone().into_substituted(params, regex_escape);
        *self = substituted;
    }

    fn into_substituted(self, params: &SubstitutionMap, regex_escape: bool) -> (r: Self) {
        SubstituteBuilder::Text(self).substitute(params, regex_escape)
    }
}

} // verus!
