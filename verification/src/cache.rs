//! Artifact caching and acquisition: a deterministic cache handle per
//! package, version and URL, and the acquirer that folds the bytes of a
//! cached file or a network response into a rolling digest.

use vstd::prelude::*;
use vstd::string::StringExecFns;

use crate::hash::{digest_spec, hash_matches, hex_encode, hex_of_bytes, stripped_hash, HashType,
    Hasher};
use crate::manifest::{Manifest, MergeDefaults};
use crate::strutil::{after_last, chars_of, string_of, suffix_after_last};
use crate::substitutions::url_leaf;
use crate::Architecture;

verus! {

/// Why an acquisition failed.
#[derive(Debug)]
pub enum Error {
    /// The network transport failed, with its description.
    Request(String),
    /// A cache file could not be read or written, with its description.
    IO(String),
    /// The response's HTTP status was not a success.
    ErrorCode(u16),
    /// The resolved configuration has no download URL.
    MissingDownloadUrl,
    /// The computed digest differs from the declared one; both hex
    /// spellings are carried.
    HashMismatch {
        /// The declared digest, lowered and without its name prefix.
        expected: String,
        /// The computed digest's hex spelling.
        actual: String,
    },
}

/// The cache file name of an artifact: package name, version and the
/// URL's final path segment, joined by `#`. The delimiter must not occur
/// inside the three parts.
pub open spec fn cache_file_name(name: Seq<char>, version: Seq<char>, url: Seq<char>) -> Seq<
    char,
> {
    name + "#"@ + version + "#"@ + url_leaf(url)
}

/// The reserved `#` delimiter makes cache file names parse back into
/// their three parts: with no `#` inside the package name, the version
/// or the URL's final segment, splitting the file name at its delimiters
/// recovers all three, so distinct triples name distinct cache slots.
pub proof fn lemma_cache_name_parses_back(name: Seq<char>, version: Seq<char>, url: Seq<char>)
    requires
        forall|i: int| 0 <= i < name.len() ==> name[i] != '#',
        forall|i: int| 0 <= i < version.len() ==> version[i] != '#',
        forall|i: int| 0 <= i < url_leaf(url).len() ==> url_leaf(url)[i] != '#',
    ensures
        ({
            let file = cache_file_name(name, version, url);
            &&& crate::strutil::take_until(file, '#') == name
            &&& crate::strutil::take_until(crate::strutil::drop_past(file, '#'), '#') == version
            &&& crate::strutil::drop_past(crate::strutil::drop_past(file, '#'), '#') == url_leaf(
                url,
            )
        }),
{
    let file = cache_file_name(name, version, url);
    let leaf = url_leaf(url);
    reveal_strlit("#");
    assert("#"@ =~= seq!['#']);
    let tail = version + seq!['#'] + leaf;
    assert(file =~= name + seq!['#'] + tail);
    crate::strutil::lemma_split_at_delimiter(name, tail, '#');
    crate::strutil::lemma_split_at_delimiter(version, leaf, '#');
}

/// A directory path joined with a file name by `/`, unless the directory
/// already ends with a separator.
pub open spec fn joined_path(dir: Seq<char>, name: Seq<char>) -> Seq<char> {
    if dir.len() == 0 {
        name
    } else if dir.last() == '/' {
        dir + name
    } else {
        dir + "/"@ + name
    }
}

/// A cache handle: the deterministic identity and path of one cached
/// artifact. Created once per acquisition request and consumed by
/// exactly one acquirer.
#[derive(Debug)]
pub struct Handle {
    /// The source URL.
    pub url: String,
    /// The cache file name.
    pub file_name: String,
    /// The full path of the cache file.
    pub cache_path: String,
    /// The digest algorithm to verify the artifact with.
    pub hash_type: HashType,
}

impl Handle {
    /// The source URL.
    pub open spec fn url_view(&self) -> Seq<char> {
        self.url@
    }

    /// The full path of the cache file.
    pub open spec fn cache_path_view(&self) -> Seq<char> {
        self.cache_path@
    }

    /// The digest algorithm to verify the artifact with.
    pub open spec fn hash_type_view(&self) -> HashType {
        self.hash_type
    }

    /// The source URL.
    pub fn url(&self) -> (r: &String)
        ensures
            r@ == self.url_view(),
    {
        &self.url
    }

    /// The full path of the cache file.
    pub fn cache_path(&self) -> (r: &String)
        ensures
            r@ == self.cache_path_view(),
    {
        &self.cache_path
    }

    /// The digest algorithm to verify the artifact with.
    pub fn hash_type(&self) -> (r: HashType)
        ensures
            r == self.hash_type_view(),
    {
        self.hash_type
    }

    /// A handle for the given cache directory, file name, algorithm and
    /// URL.
    pub fn new(cache_dir: &str, file_name: String, hash_type: HashType, url: String) -> (r: Result<
        Handle,
        Error,
    >)
        ensures
            r is Ok,
            r->Ok_0.url_view() == url@,
            r->Ok_0.file_name@ == file_name@,
            r->Ok_0.cache_path_view() == joined_path(cache_dir@, file_name@),
            r->Ok_0.hash_type_view() == hash_type,
    {
        let cache_path = join_path(cache_dir, file_name.as_str());
        Ok(Handle { url, file_name, cache_path, hash_type })
    }

    /// One handle per resolved download URL of the manifest, under the
    /// default digest algorithm; fails exactly when no URL resolves for
    /// the architecture.
    pub fn open_manifest(cache_dir: &str, manifest: &Manifest, arch: Architecture) -> (r: Result<
        Vec<Handle>,
        Error,
    >)
        ensures
            ({
                let merged = manifest.architecture.spec_merge(manifest.install_config@, arch);
                match merged.url {
                    None => r matches Err(Error::MissingDownloadUrl),
                    Some(urls) => {
                        if urls.len() == 0 {
                            r matches Err(Error::MissingDownloadUrl)
                        } else {
                            &&& r is Ok
                            &&& r->Ok_0@.len() == urls.len()
                            &&& forall|i: int|
                                0 <= i < urls.len() ==> {
                                    let h = #[trigger] r->Ok_0@[i];
                                    &&& h.url_view() == urls[i]
                                    &&& h.file_name@ == cache_file_name(
                                        manifest.name@,
                                        manifest.version@,
                                        urls[i],
                                    )
                                    &&& h.cache_path_view() == joined_path(cache_dir@, h.file_name@)
                                    &&& h.hash_type_view() == HashType::SHA256
                                }
                            }
                    },
                }
            }),
    {
        let urls = match manifest.download_urls(arch) {
            None => {
                return Err(Error::MissingDownloadUrl);
            },
            Some(urls) => urls,
        };
        if urls.len() == 0 {
            return Err(Error::MissingDownloadUrl);
        }
        let ghost url_views = urls.deep_view();
        let mut handles: Vec<Handle> = Vec::new();
        let mut i: usize = 0;
        while i < urls.len()
            invariant
                i <= urls@.len(),
                url_views == urls.deep_view(),
                handles@.len() == i,
                forall|k: int|
                    0 <= k < i ==> {
                        let h = #[trigger] handles@[k];
                        &&& h.url_view() == url_views[k]
                        &&& h.file_name@ == cache_file_name(
                            manifest.name@,
                            manifest.version@,
                            url_views[k],
                        )
                        &&& h.cache_path_view() == joined_path(cache_dir@, h.file_name@)
                        &&& h.hash_type_view() == HashType::SHA256
                    },
            decreases urls@.len() - i,
        {
            proof {
                assert(urls.deep_view()[i as int] == urls@[i as int]@);
            }
            let url_text = urls[i].url.clone();
            let file_name = make_cache_name(
                manifest.name.as_str(),
                manifest.version.as_str(),
                url_text.as_str(),
            );
            let cache_path = join_path(cache_dir, file_name.as_str());
            handles.push(Handle { url: url_text, file_name, cache_path, hash_type: HashType::SHA256 });
            i = i + 1;
        }
        Ok(handles)
    }
}

/// Joins a directory path and a file name with `/`.
fn join_path(dir: &str, name: &str) -> (r: String)
    ensures
        r@ == joined_path(dir@, name@),
{
    let dv = chars_of(dir);
    if dv.len() == 0 {
        return name.to_owned();
    }
    if dv[dv.len() - 1] == '/' {
        let r = dir.to_owned().concat(name);
        proof {
            assert(dv@.last() == dir@[dir@.len() - 1]);
        }
        r
    } else {
        let r = dir.to_owned().concat("/").concat(name);
        proof {
            assert((dir@ + "/"@) + name@ =~= dir@ + "/"@ + name@);
        }
        r
    }
}

/// The cache file name of one artifact.
fn make_cache_name(name: &str, version: &str, url: &str) -> (r: String)
    ensures
        r@ == cache_file_name(name@, version@, url@),
{
    let leaf = string_of(crate::substitutions::leaf_of_url(url).as_slice());
    let r = name.to_owned().concat("#").concat(version).concat("#").concat(leaf.as_str());
    proof {
        assert((((name@ + "#"@) + version@) + "#"@) + url_leaf(url@) =~= cache_file_name(
            name@,
            version@,
            url@,
        ));
    }
    r
}

/// Where an acquirer's bytes come from, chosen once at open time.
#[derive(Debug, Clone, Copy, PartialEq, Eq, Structural)]
pub enum SourceKind {
    /// The cache file already exists and is read back; the cache is not
    /// rewritten.
    Cached,
    /// The bytes come from the network response; each chunk is also
    /// appended to the cache file.
    Remote,
}

/// The progress label: the URL's final path segment, or, when that is
/// empty, the cache file name's text after its last `_`.
pub open spec fn progress_label(url: Seq<char>, file_name: Seq<char>) -> Seq<char> {
    if url_leaf(url).len() > 0 {
        url_leaf(url)
    } else {
        after_last(file_name, '_')
    }
}

/// The result of one finished acquisition.
#[derive(Debug)]
pub struct DownloadResult {
    /// The cache file name.
    pub file_name: String,
    /// The computed digest, as raw bytes.
    pub computed_hash: Vec<u8>,
    /// The source URL.
    pub url: String,
}

/// An acquirer: consumes one cache handle, folds the artifact's bytes —
/// handed over chunk by chunk — into a rolling digest, and reports
/// whether each chunk must also be written to the cache file.
pub struct Downloader {
    handle: Handle,
    hasher: Hasher,
    source: SourceKind,
    message: String,
}

impl Downloader {
    /// The bytes consumed so far.
    pub closed spec fn fed(&self) -> Seq<u8> {
        self.hasher.fed()
    }

    /// The digest algorithm in use.
    pub closed spec fn algo(&self) -> HashType {
        self.hasher.algo()
    }

    /// The byte source chosen at open time.
    pub closed spec fn source_view(&self) -> SourceKind {
        self.source
    }

    /// The consumed handle's URL.
    pub closed spec fn url_view(&self) -> Seq<char> {
        self.handle.url_view()
    }

    /// The consumed handle's cache file name.
    pub closed spec fn file_name_view(&self) -> Seq<char> {
        self.handle.file_name@
    }

    /// The progress label held by this acquirer.
    pub closed spec fn message_view(&self) -> Seq<char> {
        self.message@
    }

    /// The progress label held by this acquirer.
    pub fn message(&self) -> (r: &String)
        ensures
            r@ == self.message_view(),
    {
        &self.message
    }

    /// Opens an acquisition. The caller reports whether the cache file
    /// exists; only when it does not was a network request issued, and
    /// its status is handed in. A non-success status is fatal; with an
    /// existing cache file no request, and so no status, is involved.
    pub fn new(cache: Handle, cache_exists: bool, status: Option<u16>) -> (r: Result<
        Downloader,
        Error,
    >)
        requires
            cache_exists <==> status is None,
        ensures
            cache_exists ==> r is Ok && r->Ok_0.source_view() == SourceKind::Cached,
            !cache_exists && 200 <= status->0 < 300 ==> r is Ok && r->Ok_0.source_view()
                == SourceKind::Remote,
            !cache_exists && !(200 <= status->0 < 300) ==> r == Err::<Downloader, Error>(
                Error::ErrorCode(status->0),
            ),
            r is Ok ==> {
                let dl = r->Ok_0;
                &&& dl.fed() == Seq::<u8>::empty()
                &&& dl.algo() == cache.hash_type_view()
                &&& dl.url_view() == cache.url_view()
                &&& dl.file_name_view() == cache.file_name@
                &&& dl.message_view() == progress_label(cache.url_view(), cache.file_name@)
            },
    {
        let source = match status {
            None => SourceKind::Cached,
            Some(code) => {
                if !(200 <= code && code < 300) {
                    return Err(Error::ErrorCode(code));
                }
                SourceKind::Remote
            },
        };
        let leaf = crate::substitutions::leaf_of_url(cache.url().as_str());
        let message = if leaf.len() > 0 {
            string_of(leaf.as_slice())
        } else {
            string_of(suffix_after_last(&chars_of(cache.file_name.as_str()), '_').as_slice())
        };
        let hasher = Hasher::start(cache.hash_type());
        Ok(Downloader { handle: cache, hasher, source, message })
    }

    /// Whether a consumed chunk must also be appended to the cache file:
    /// exactly for network-sourced acquisitions. A cached source never
    /// rewrites its cache file.
    pub fn writes_cache(&self) -> (r: bool)
        ensures
            r == (self.source_view() == SourceKind::Remote),
    {
        matches!(self.source, SourceKind::Remote)
    }

    /// Folds one chunk into the rolling digest.
    pub fn consume_chunk(&mut self, chunk: &[u8])
        ensures
            final(self).fed() == old(self).fed() + chunk@,
            final(self).algo() == old(self).algo(),
            final(self).source_view() == old(self).source_view(),
            final(self).url_view() == old(self).url_view(),
            final(self).file_name_view() == old(self).file_name_view(),
    {
        self.hasher.update(chunk);
    }

    /// Finalizes the digest over every byte consumed and hands back the
    /// file name, the digest and the source URL.
    pub fn finish(self) -> (r: DownloadResult)
        ensures
            r.computed_hash@ == digest_spec(self.algo(), self.fed()),
            r.computed_hash@.len() == self.algo().spec_digest_len(),
            r.file_name@ == self.file_name_view(),
            r.url@ == self.url_view(),
    {
        let computed = self.hasher.finish();
        DownloadResult { file_name: self.handle.file_name, computed_hash: computed, url: self.handle.url }
    }
}

/// Compares a finished acquisition against the manifest's declared hash:
/// the declared text, lowered and stripped of an optional algorithm-name
/// prefix, must spell the computed digest. A mismatch reports both
/// spellings.
pub fn verify_download(result: &DownloadResult, declared: &str) -> (r: Result<(), Error>)
    ensures
        match r {
            Ok(_) => hash_matches(result.computed_hash@, declared@),
            Err(e) => !hash_matches(result.computed_hash@, declared@) && (e matches
            Error::HashMismatch { expected, actual } && expected@ == stripped_hash(declared@)
                && actual@ == hex_of_bytes(result.computed_hash@)),
        },
{
    let (stripped, _) = crate::hash::strip_hash_prefix(declared);
    let actual = hex_encode(result.computed_hash.as_slice());
    if crate::strutil::str_eq(stripped.as_str(), actual.as_str()) {
        Ok(())
    } else {
        Err(Error::HashMismatch { expected: stripped, actual })
    }
}

/// Cache idempotence: a second acquisition of the same handle finds the
/// cache file the first run wrote, so it opens the cached source — by
/// `Downloader::new` no network request, and so no status, is involved —
/// and, consuming the same bytes under the same algorithm, its digest
/// equals the first run's.
pub proof fn lemma_cache_idempotence(first: Downloader, second: Downloader)
    requires
        second.source_view() == SourceKind::Cached,
        first.algo() == second.algo(),
        first.fed() == second.fed(),
    ensures
        digest_spec(second.algo(), second.fed()) == digest_spec(first.algo(), first.fed()),
{
}

} // verus!
