use md5::Digest;
use sfsu::cache::{verify_download, Downloader, Error, Handle};
use sfsu::hash::{hex_encode, HashType};
use sfsu::manifest::{Autoupdate, AutoupdateConfig, InstallConfig, Manifest, StringArray};
use sfsu::orchestrator::{collect_results, verify_all};
use sfsu::Architecture;

fn body_of_100_bytes() -> Vec<u8> {
    (0u8..100).collect()
}

fn test_manifest(declared_hash: &str) -> Manifest {
    Manifest {
        name: String::from("foo"),
        version: String::from("1.0.0"),
        install_config: InstallConfig {
            hash: Some(StringArray::Single(String::from(declared_hash))),
            url: Some(StringArray::Single(String::from("https://x/foo-1.0.0.zip"))),
            ..InstallConfig::default()
        },
        autoupdate: Some(Autoupdate {
            architecture: None,
            default_config: AutoupdateConfig {
                url: Some(StringArray::Single(String::from("https://x/foo-$version.zip"))),
                ..AutoupdateConfig::default()
            },
        }),
        ..Manifest::default()
    }
}

/// Simulates one acquisition: feeds the response bytes in chunks and
/// mirrors what the surrounding program does with the cache file.
fn acquire(
    handle: Handle,
    cache: &mut Option<Vec<u8>>,
    body: &[u8],
    status: u16,
    requests: &mut usize,
) -> Result<sfsu::cache::DownloadResult, Error> {
    let cache_exists = cache.is_some();
    let status = if cache_exists {
        None
    } else {
        *requests += 1;
        Some(status)
    };
    let mut dl = Downloader::new(handle, cache_exists, status)?;
    let bytes: Vec<u8> = match cache {
        Some(held) => held.clone(),
        None => body.to_vec(),
    };
    let mut written: Vec<u8> = Vec::new();
    for chunk in bytes.chunks(7) {
        dl.consume_chunk(chunk);
        if dl.writes_cache() {
            written.extend_from_slice(chunk);
        }
    }
    if dl.writes_cache() {
        *cache = Some(written);
    }
    Ok(dl.finish())
}

#[test]
fn resolved_url_and_matching_hash_end_to_end() {
    // Manifest foo 1.0.0 with a templated autoupdate URL resolves to the
    // concrete URL; a 200-status 100-byte response whose SHA256 equals
    // the declared hash verifies without a mismatch.
    let body = body_of_100_bytes();
    let declared = hex_encode(&sha2::Sha256::digest(&body)[..]);
    let mut manifest = test_manifest(&declared);

    manifest.set_version(String::from("1.0.0")).expect("bump succeeds");
    let urls = manifest.download_urls(Architecture::X64).expect("urls resolve");
    assert_eq!(urls.len(), 1);
    assert_eq!(urls[0].url, "https://x/foo-1.0.0.zip");

    let handles = Handle::open_manifest("/tmp/cache", &manifest, Architecture::X64).expect(
        "handles",
    );
    assert_eq!(handles.len(), 1);
    assert_eq!(handles[0].file_name, "foo#1.0.0#foo-1.0.0.zip");
    assert_eq!(handles[0].cache_path, "/tmp/cache/foo#1.0.0#foo-1.0.0.zip");
    assert_eq!(handles[0].hash_type, HashType::SHA256);

    let mut cache: Option<Vec<u8>> = None;
    let mut requests = 0usize;
    let handle = handles.into_iter().next().unwrap();
    let result = acquire(handle, &mut cache, &body, 200, &mut requests).expect("acquires");

    assert_eq!(hex_encode(result.computed_hash.as_slice()), declared);
    assert!(verify_download(&result, &declared).is_ok());
    assert_eq!(cache.as_deref(), Some(body.as_slice()));
}

#[test]
fn wrong_declared_hash_reports_mismatch_and_keeps_cache() {
    // With an intentionally wrong declared hash the transport still
    // succeeds, verification reports a mismatch with both spellings, and
    // the cache file remains on disk.
    let body = body_of_100_bytes();
    let wrong = "0".repeat(64);
    let manifest = test_manifest(&wrong);

    let handles = Handle::open_manifest("/tmp/cache", &manifest, Architecture::X64).expect(
        "handles",
    );
    let mut cache: Option<Vec<u8>> = None;
    let mut requests = 0usize;
    let handle = handles.into_iter().next().unwrap();
    let result = acquire(handle, &mut cache, &body, 200, &mut requests).expect("acquires");

    match verify_download(&result, &wrong) {
        Err(Error::HashMismatch { expected, actual }) => {
            assert_eq!(expected, wrong);
            assert_eq!(actual, hex_encode(&sha2::Sha256::digest(&body)[..]));
        }
        other => panic!("expected a hash mismatch, got {other:?}"),
    }
    assert_eq!(cache.as_deref(), Some(body.as_slice()));
}

#[test]
fn cache_idempotence() {
    // Acquiring the same handle twice, with the cache populated by the
    // first run, issues no second network request and yields the same
    // digest.
    let body = body_of_100_bytes();
    let manifest = test_manifest("unused");
    let mut cache: Option<Vec<u8>> = None;
    let mut requests = 0usize;

    let handles = Handle::open_manifest("/tmp/cache", &manifest, Architecture::X64).expect(
        "handles",
    );
    let handle = handles.into_iter().next().unwrap();
    let first = acquire(handle, &mut cache, &body, 200, &mut requests).expect("first run");
    assert_eq!(requests, 1);
    assert!(cache.is_some());

    let handles = Handle::open_manifest("/tmp/cache", &manifest, Architecture::X64).expect(
        "handles",
    );
    let handle = handles.into_iter().next().unwrap();
    let second = acquire(handle, &mut cache, &body, 200, &mut requests).expect("second run");
    assert_eq!(requests, 1, "the cached run must not issue a network request");
    assert_eq!(first.computed_hash, second.computed_hash);
}

#[test]
fn non_success_status_is_fatal() {
    let handle = Handle::new(
        "/tmp/cache",
        String::from("foo#1.0.0#foo.zip"),
        HashType::SHA256,
        String::from("https://x/foo.zip"),
    )
    .expect("handle");
    match Downloader::new(handle, false, Some(404)) {
        Err(Error::ErrorCode(status)) => assert_eq!(status, 404),
        _ => panic!("a 404 must be fatal"),
    }
}

#[test]
fn source_kind_follows_cache_presence() {
    let handle = Handle::new(
        "/tmp/cache",
        String::from("foo#1.0.0#foo.zip"),
        HashType::SHA256,
        String::from("https://x/foo.zip"),
    )
    .expect("handle");
    let dl = Downloader::new(handle, true, None).expect("opens");
    assert!(!dl.writes_cache());

    let handle = Handle::new(
        "/tmp/cache",
        String::from("foo#1.0.0#foo.zip"),
        HashType::SHA256,
        String::from("https://x/foo.zip"),
    )
    .expect("handle");
    let dl = Downloader::new(handle, false, Some(204)).expect("opens");
    assert!(dl.writes_cache());
    assert_eq!(dl.message().as_str(), "foo.zip");
}

#[test]
fn progress_label_falls_back_to_file_name() {
    let handle = Handle::new(
        "/tmp/cache",
        String::from("pkg_1.0_payload"),
        HashType::SHA256,
        String::from("nonsense"),
    )
    .expect("handle");
    // "nonsense" has no path separator, so its final segment is itself;
    // an empty leaf only arises from a trailing slash.
    let dl = Downloader::new(handle, true, None).expect("opens");
    assert_eq!(dl.message().as_str(), "nonsense");

    let handle = Handle::new(
        "/tmp/cache",
        String::from("pkg_1.0_payload"),
        HashType::SHA256,
        String::from("https://x/dir/"),
    )
    .expect("handle");
    let dl = Downloader::new(handle, true, None).expect("opens");
    assert_eq!(dl.message().as_str(), "payload");
}

#[test]
fn cache_file_name_parses_back() {
    // The reserved # delimiter lets the three parts be read back from
    // the cache file name.
    let name = sfsu::strutil::chars_of("foo#1.0.0#foo-1.0.0.zip");
    let (package, rest) = sfsu::strutil::split_first(&name, '#');
    let (version, leaf) = sfsu::strutil::split_first(&rest, '#');
    assert_eq!(String::from_iter(package), "foo");
    assert_eq!(String::from_iter(version), "1.0.0");
    assert_eq!(String::from_iter(leaf), "foo-1.0.0.zip");
}

#[test]
fn missing_download_url() {
    let manifest = Manifest { name: String::from("foo"), ..Manifest::default() };
    match Handle::open_manifest("/tmp/cache", &manifest, Architecture::X64) {
        Err(Error::MissingDownloadUrl) => {}
        _ => panic!("a manifest without URLs must be refused"),
    }
}

#[test]
fn orchestrator_fails_fast_and_collects_in_order() {
    let ok = |name: &str| sfsu::cache::DownloadResult {
        file_name: String::from(name),
        computed_hash: vec![1, 2, 3],
        url: String::from("https://x/a"),
    };
    let all_ok = vec![Ok(ok("a")), Ok(ok("b"))];
    let collected = collect_results(all_ok).expect("all results kept");
    assert_eq!(collected.len(), 2);
    assert_eq!(collected[0].file_name, "a");
    assert_eq!(collected[1].file_name, "b");

    let with_error = vec![Ok(ok("a")), Err(Error::ErrorCode(500)), Err(Error::MissingDownloadUrl)];
    match collect_results(with_error) {
        Err(Error::ErrorCode(status)) => assert_eq!(status, 500),
        _ => panic!("the first error must win"),
    }
}

#[test]
fn verify_all_checks_each_download() {
    let body = b"payload".to_vec();
    let digest = sha2::Sha256::digest(&body)[..].to_vec();
    let hex = hex_encode(digest.as_slice());
    let result = sfsu::cache::DownloadResult {
        file_name: String::from("foo"),
        computed_hash: digest,
        url: String::from("https://x/foo"),
    };
    let results = vec![result];

    assert!(verify_all(&results, &vec![hex.clone()], false).is_ok());
    assert!(matches!(
        verify_all(&results, &vec![String::from("sha256:ff")], false),
        Err(Error::HashMismatch { .. })
    ));
    // Disabled hash checking passes everything.
    assert!(verify_all(&results, &vec![String::from("sha256:ff")], true).is_ok());
}

#[test]
fn md5_manifest_hash_type_respected() {
    let body = b"artifact".to_vec();
    let handle = Handle::new(
        "/tmp/cache",
        String::from("foo#1#a.zip"),
        HashType::MD5,
        String::from("https://x/a.zip"),
    )
    .expect("handle");
    let mut cache = None;
    let mut requests = 0usize;
    let result = acquire(handle, &mut cache, &body, 200, &mut requests).expect("acquires");
    assert_eq!(result.computed_hash.as_slice(), &md5::Md5::digest(&body)[..]);
    assert_eq!(result.url, "https://x/a.zip");
    assert_eq!(result.file_name, "foo#1#a.zip");
}
