//! Package-level helpers: search modes, match criteria over compiled
//! patterns, and the error kinds package operations report.

use vstd::prelude::*;

use crate::manifest::{InstallManifest, Manifest, MergeDefaults};
use crate::strutil::{chars_of, str_eq};
use crate::Architecture;

verus! {

/// Why a package operation failed.
#[derive(Debug)]
pub enum Error {
    /// A path or file held text that is not UTF-8.
    NonUtf8,
    /// A path had no usable file name.
    MissingFileName,
    /// An I/O failure, with its description.
    IO(String),
    /// A manifest could not be parsed: its path and the parser's message.
    ParsingManifest(String, String),
    /// A version bump was asked of a manifest without an autoupdate
    /// section.
    MissingAutoUpdate,
    /// A version bump was asked of an architecture section without
    /// autoupdate templates.
    MissingArchAutoUpdate,
    /// The package has no local manifest.
    MissingLocalManifest,
}

/// What a search matches against.
#[derive(Debug, Default, Copy, Clone, PartialEq, Eq, Structural)]
pub enum SearchMode {
    /// Only search the name.
    #[default]
    Name,
    /// Only search the binaries.
    Binary,
    /// Search both the name and binaries.
    Both,
}

impl SearchMode {
    /// Whether this mode matches names.
    pub fn match_names(self) -> (r: bool)
        ensures
            r == (self == SearchMode::Name || self == SearchMode::Both),
    {
        matches!(self, SearchMode::Name | SearchMode::Both)
    }

    /// Whether this mode matches names only.
    pub fn only_match_names(self) -> (r: bool)
        ensures
            r == (self == SearchMode::Name),
    {
        self == SearchMode::Name
    }

    /// Whether this mode matches binaries.
    pub fn match_binaries(self) -> (r: bool)
        ensures
            r == (self == SearchMode::Binary || self == SearchMode::Both),
    {
        matches!(self, SearchMode::Binary | SearchMode::Both)
    }

    /// Whether this mode matches binaries only.
    pub fn only_match_binaries(self) -> (r: bool)
        ensures
            r == (self == SearchMode::Binary),
    {
        self == SearchMode::Binary
    }

    /// Whether a name match settles the search without looking at
    /// binaries: true at once for a name-only search whose pattern
    /// matches the name, and for any mode that matches binaries.
    pub fn eager_name_matches(self, manifest_name: &str, search_regex: &Pattern) -> (r: bool)
        ensures
            r == ((self == SearchMode::Name && regex_is_match(
                search_regex.source_view(),
                manifest_name@,
            )) || (self == SearchMode::Binary || self == SearchMode::Both)),
    {
        if self.only_match_names() && search_regex.is_match(manifest_name) {
            return true;
        }
        if self.match_binaries() {
            return true;
        }
        false
    }
}

/// The `regex` crate's compiled regular expression.
#[verifier::external_type_specification]
#[verifier::external_body]
pub struct ExRegex(regex::Regex);

/// Whether the regular expression whose source text is `pattern` matches
/// `text` anywhere; a function of the two texts alone.
pub uninterp spec fn regex_is_match(pattern: Seq<char>, text: Seq<char>) -> bool;

/// A compiled search pattern, kept together with its source text so that
/// contracts can speak of what it matches.
#[derive(Debug)]
pub struct Pattern {
    source: String,
    compiled: regex::Regex,
}

impl Pattern {
    /// The source text this pattern was compiled from.
    pub closed spec fn source_view(&self) -> Seq<char> {
        self.source@
    }

    /// Relies on `regex::Regex::new`: compiles the pattern; `None`
    /// exactly when the text is no valid regular expression.
    #[verifier::external_body]
    pub fn new(pattern: &str) -> (r: Option<Pattern>)
        ensures
            r is Some ==> r->0.source_view() == pattern@,
    {
        match regex::Regex::new(pattern) {
            Ok(compiled) => Some(Pattern { source: pattern.to_owned(), compiled }),
            Err(_) => None,
        }
    }

    /// Relies on `regex::Regex::is_match`: whether the pattern matches
    /// the text anywhere, a function of the pattern's source text and
    /// the searched text alone.
    #[verifier::external_body]
    pub fn is_match(&self, text: &str) -> (r: bool)
        ensures
            r == regex_is_match(self.source_view(), text@),
    {
        self.compiled.is_match(text)
    }
}

/// The binaries among `items` that the pattern matches, in order.
pub open spec fn matched_bins(items: Seq<Seq<char>>, psrc: Seq<char>) -> Seq<Seq<char>>
    decreases items.len(),
{
    if items.len() == 0 {
        Seq::empty()
    } else {
        (if regex_is_match(psrc, items[0]) {
            seq![items[0]]
        } else {
            Seq::empty()
        }) + matched_bins(items.skip(1), psrc)
    }
}

/// Keeps the strings the pattern matches, in order.
fn filter_matching(strings: Vec<String>, pattern: &Pattern) -> (r: Vec<String>)
    ensures
        r.deep_view() == matched_bins(strings.deep_view(), pattern.source_view()),
{
    let ghost all = strings.deep_view();
    let ghost psrc = pattern.source_view();
    let mut out: Vec<String> = Vec::new();
    let ghost mut done: Seq<Seq<char>> = Seq::empty();
    let mut i: usize = 0;
    proof {
        assert(all.skip(0) =~= all);
        assert(done + matched_bins(all, psrc) =~= matched_bins(all, psrc));
    }
    while i < strings.len()
        invariant
            i <= strings@.len(),
            all == strings.deep_view(),
            psrc == pattern.source_view(),
            out@.len() == done.len(),
            forall|k: int| 0 <= k < done.len() ==> (#[trigger] out@[k])@ == done[k],
            matched_bins(all, psrc) == done + matched_bins(all.skip(i as int), psrc),
        decreases strings@.len() - i,
    {
        proof {
            let rest = all.skip(i as int);
            assert(rest[0] == all[i as int]);
            assert(all[i as int] == strings@[i as int]@);
            assert(rest.skip(1) =~= all.skip(i + 1));
        }
        if pattern.is_match(strings[i].as_str()) {
            out.push(strings[i].clone());
            proof {
                done = done + seq![all[i as int]];
                assert((done + matched_bins(all.skip(i + 1), psrc)) =~= (done.drop_last() + (
                seq![all[i as int]] + matched_bins(all.skip(i + 1), psrc))));
            }
        } else {
            proof {
                assert(Seq::<Seq<char>>::empty() + matched_bins(all.skip(i + 1), psrc)
                    =~= matched_bins(all.skip(i + 1), psrc));
            }
        }
        i = i + 1;
    }
    proof {
        assert(all.skip(i as int) =~= Seq::<Seq<char>>::empty());
        assert(done + matched_bins(all.skip(i as int), psrc) =~= done);
        assert forall|k: int| 0 <= k < out@.len() implies out.deep_view()[k] == done[k] by {
            assert((out@[k])@ == done[k]);
        }
        assert(out.deep_view() =~= done);
    }
    out
}

/// What a search found for one package: whether the name matched, and
/// which binaries did.
#[derive(Debug)]
pub struct MatchCriteria {
    /// Whether the package name matched.
    pub name: bool,
    /// The binaries the pattern matched.
    pub bins: Vec<String>,
}

impl MatchCriteria {
    /// A criteria with nothing matched yet.
    pub fn new() -> (r: MatchCriteria)
        ensures
            r.name == false,
            r.bins@.len() == 0,
    {
        MatchCriteria { name: false, bins: Vec::new() }
    }

    /// Matches one package against the pattern: the name when the mode
    /// covers names, and the effective binaries of the given manifest
    /// when one is supplied.
    pub fn matches(
        file_name: &str,
        manifest: Option<&Manifest>,
        mode: SearchMode,
        pattern: &Pattern,
        arch: Architecture,
    ) -> (r: MatchCriteria)
        ensures
            r.name == ((mode == SearchMode::Name || mode == SearchMode::Both) && regex_is_match(
                pattern.source_view(),
                file_name@,
            )),
            r.bins.deep_view() == match manifest {
                None => Seq::<Seq<char>>::empty(),
                Some(m) => match m.architecture.spec_merge(m.install_config@, arch).bin {
                    None => Seq::<Seq<char>>::empty(),
                    Some(items) => matched_bins(items, pattern.source_view()),
                },
            },
    {
        let name = mode.match_names() && pattern.is_match(file_name);
        let empty_bins: Vec<String> = Vec::new();
        proof {
            assert(empty_bins.deep_view() =~= Seq::<Seq<char>>::empty());
        }
        let bins: Vec<String> = match manifest {
            None => empty_bins,
            Some(m) => {
                let config = m.install_config(arch);
                match config.bin {
                    None => empty_bins,
                    Some(sa) => filter_matching(sa.to_vec(), pattern),
                }
            },
        };
        MatchCriteria { name, bins }
    }
}

/// A package named on the command line: either a bare name or a bucket
/// and a name.
#[derive(Debug, Clone)]
pub enum PackageReference {
    /// A bucket and a package name.
    BucketNamePair {
        /// The bucket to look in.
        bucket: String,
        /// The package name.
        name: String,
    },
    /// A bare package name.
    Name(String),
}

/// The bucket an install record names, as an abstract value; empty when
/// none was recorded.
pub open spec fn source_of(m: InstallManifest) -> Seq<char> {
    match m.bucket {
        Some(b) => b@,
        None => Seq::empty(),
    }
}

/// Whether a package is installed from the given bucket: true exactly
/// when an install record exists, a bucket was asked for, and the
/// record's source equals it. With no bucket to confirm, the answer is
/// false.
pub fn is_installed(install_manifest: &Option<InstallManifest>, bucket: Option<&str>) -> (r: bool)
    ensures
        r == match install_manifest {
            Some(m) => match bucket {
                Some(b) => source_of(*m) == b@,
                None => false,
            },
            None => false,
        },
{
    match install_manifest {
        Some(m) => match bucket {
            Some(b) => str_eq(m.get_source().as_str(), b),
            None => false,
        },
        None => false,
    }
}

/// Whether `p` spells the first characters of `s`.
pub open spec fn is_prefix_of(p: Seq<char>, s: Seq<char>) -> bool {
    p.len() <= s.len() && s.subrange(0, p.len() as int) == p
}

/// Whether `prefix` spells the first characters of `text`.
pub fn starts_with(text: &str, prefix: &str) -> (r: bool)
    ensures
        r == is_prefix_of(prefix@, text@),
{
    let tv = chars_of(text);
    let pv = chars_of(prefix);
    if pv.len() > tv.len() {
        return false;
    }
    crate::strutil::match_at(&tv, &pv, 0)
}

impl Manifest {
    /// Whether this manifest is installed from the given bucket; the
    /// install record is looked up by the caller under this manifest's
    /// name.
    pub fn is_installed(&self, install_manifest: &Option<InstallManifest>, bucket: Option<&str>)
        -> (r: bool)
        ensures
            r == match install_manifest {
                Some(m) => match bucket {
                    Some(b) => source_of(*m) == b@,
                    None => false,
                },
                None => false,
            },
    {
        is_installed(install_manifest, bucket)
    }

    /// Whether a commit message names this manifest: it starts with the
    /// package name. A commit without a message matches nothing.
    pub fn commit_message_matches(&self, message: Option<&str>) -> (r: bool)
        ensures
            r == match message {
                Some(m) => is_prefix_of(self.name@, m@),
                None => false,
            },
    {
        match message {
            Some(m) => starts_with(m, self.name.as_str()),
            None => false,
        }
    }

    /// The binaries of the effective configuration that the pattern
    /// matches; `None` when the configuration names no binary or none
    /// matches.
    pub fn binary_matches(&self, regex: &Pattern, arch: Architecture) -> (r: Option<Vec<String>>)
        ensures
            match self.architecture.spec_merge(self.install_config@, arch).bin {
                None => r is None,
                Some(items) => {
                    let matched = matched_bins(items, regex.source_view());
                    if matched.len() == 0 {
                        r is None
                    } else {
                        r is Some && r->0.deep_view() == matched
                    }
                },
            },
    {
        let config = self.install_config(arch);
        match config.bin {
            None => None,
            Some(sa) => {
                let matched = filter_matching(sa.to_vec(), regex);
                if matched.len() == 0 {
                    None
                } else {
                    Some(matched)
                }
            },
        }
    }
}

} // verus!
