use sfsu::manifest::{
    Autoupdate, AutoupdateArchitecture, AutoupdateConfig, InstallConfig, Manifest,
    ManifestArchitecture, MergeDefaults, StringArray,
};
use sfsu::packages::{is_installed, MatchCriteria, Pattern, SearchMode};
use sfsu::manifest::InstallManifest;
use sfsu::Architecture;

fn single(s: &str) -> Option<StringArray> {
    Some(StringArray::Single(String::from(s)))
}

fn items(sa: &Option<StringArray>) -> Vec<String> {
    match sa {
        None => vec![],
        Some(sa) => sa.duplicate().to_vec(),
    }
}

#[test]
fn merge_with_no_override_is_identity() {
    // For every architecture, merging absent overrides keeps the defaults.
    let archs = [Architecture::X86, Architecture::X64, Architecture::Arm64];
    for arch in archs {
        let default = InstallConfig {
            bin: single("tool.exe"),
            url: single("https://x/tool.zip"),
            hash: single("abcd"),
            ..InstallConfig::default()
        };
        let table: Option<ManifestArchitecture> = None;
        let merged = table.merge_default(default, arch);
        assert_eq!(items(&merged.bin), vec!["tool.exe"]);
        assert_eq!(items(&merged.url), vec!["https://x/tool.zip"]);
        assert_eq!(items(&merged.hash), vec!["abcd"]);
        assert!(merged.extract_dir.is_none());
    }
}

#[test]
fn override_field_wins_wholesale() {
    // A field the override sets replaces the default's value; lists are
    // replaced, not merged element-wise. Unset fields keep the default.
    let default = InstallConfig {
        bin: Some(StringArray::Array(vec![String::from("a.exe"), String::from("b.exe")])),
        url: single("https://x/default.zip"),
        ..InstallConfig::default()
    };
    let table = Some(ManifestArchitecture {
        x64: Some(InstallConfig { url: single("https://x/x64.zip"), ..InstallConfig::default() }),
        ..ManifestArchitecture::default()
    });
    let merged = table.merge_default(default, Architecture::X64);
    assert_eq!(items(&merged.url), vec!["https://x/x64.zip"]);
    assert_eq!(items(&merged.bin), vec!["a.exe", "b.exe"]);

    // The same manifest resolved for another architecture keeps defaults.
    let default2 = InstallConfig {
        bin: Some(StringArray::Array(vec![String::from("a.exe"), String::from("b.exe")])),
        url: single("https://x/default.zip"),
        ..InstallConfig::default()
    };
    let merged2 = table.merge_default(default2, Architecture::X86);
    assert_eq!(items(&merged2.url), vec!["https://x/default.zip"]);
}

#[test]
fn manifest_install_config_and_urls() {
    let manifest = Manifest {
        name: String::from("foo"),
        version: String::from("1.0.0"),
        install_config: InstallConfig {
            url: Some(StringArray::Array(vec![
                String::from("https://x/a.zip"),
                String::from("https://x/b.zip"),
            ])),
            ..InstallConfig::default()
        },
        ..Manifest::default()
    };
    let urls = manifest.download_urls(Architecture::X64).expect("urls");
    let texts: Vec<&str> = urls.iter().map(|u| u.url.as_str()).collect();
    assert_eq!(texts, vec!["https://x/a.zip", "https://x/b.zip"]);

    let bare = Manifest::default();
    assert!(bare.download_urls(Architecture::X64).is_none());
}

#[test]
fn autoupdate_config_merges_over_defaults() {
    let manifest = Manifest {
        autoupdate: Some(Autoupdate {
            architecture: Some(AutoupdateArchitecture {
                arm64: Some(AutoupdateConfig {
                    url: single("https://x/tool-$version-arm64.zip"),
                    ..AutoupdateConfig::default()
                }),
                ..AutoupdateArchitecture::default()
            }),
            default_config: AutoupdateConfig {
                url: single("https://x/tool-$version.zip"),
                extract_dir: single("tool"),
                ..AutoupdateConfig::default()
            },
        }),
        ..Manifest::default()
    };
    let arm = manifest.autoupdate_config(Architecture::Arm64).expect("config");
    assert_eq!(items(&arm.url), vec!["https://x/tool-$version-arm64.zip"]);
    assert_eq!(items(&arm.extract_dir), vec!["tool"]);

    let x64 = manifest.autoupdate_config(Architecture::X64).expect("config");
    assert_eq!(items(&x64.url), vec!["https://x/tool-$version.zip"]);

    assert!(Manifest::default().autoupdate_config(Architecture::X64).is_none());
}

#[test]
fn set_version_rewrites_templates() {
    let mut manifest = Manifest {
        name: String::from("foo"),
        version: String::from("1.0.0"),
        install_config: InstallConfig {
            url: single("https://x/foo-1.0.0.zip"),
            ..InstallConfig::default()
        },
        autoupdate: Some(Autoupdate {
            architecture: None,
            default_config: AutoupdateConfig {
                url: single("https://x/foo-$version.zip"),
                ..AutoupdateConfig::default()
            },
        }),
        ..Manifest::default()
    };
    manifest.set_version(String::from("2.5.1")).expect("bump succeeds");
    assert_eq!(manifest.version, "2.5.1");
    assert_eq!(items(&manifest.install_config.url), vec!["https://x/foo-2.5.1.zip"]);
}

#[test]
fn new_urls_from_autoupdate_templates() {
    let manifest = Manifest { version: String::from("3.1.4"), ..Manifest::default() };
    let autoupdate = AutoupdateConfig {
        url: single("https://x/tool-$version.zip"),
        ..AutoupdateConfig::default()
    };
    let urls = manifest.get_new_urls(&autoupdate).expect("templates present");
    assert_eq!(urls.to_vec(), vec!["https://x/tool-3.1.4.zip"]);

    let bare = AutoupdateConfig::default();
    assert!(manifest.get_new_urls(&bare).is_none());
}

#[test]
fn set_version_without_autoupdate_fails() {
    let mut manifest = Manifest { version: String::from("1.0.0"), ..Manifest::default() };
    let r = manifest.set_version(String::from("2.0.0"));
    assert!(matches!(r, Err(sfsu::packages::Error::MissingAutoUpdate)));
    // The version is replaced even then.
    assert_eq!(manifest.version, "2.0.0");
}

#[test]
fn with_bucket_and_depends() {
    let manifest = Manifest {
        name: String::from("foo"),
        depends: Some(StringArray::Array(vec![String::from("git"), String::from("7zip")])),
        ..Manifest::default()
    };
    let manifest = manifest.with_bucket("extras");
    assert_eq!(manifest.bucket, "extras");
    assert_eq!(manifest.depends(), vec!["git", "7zip"]);
    assert_eq!(Manifest::default().depends(), Vec::<String>::new());
}

#[test]
fn search_modes() {
    assert!(SearchMode::Name.match_names());
    assert!(SearchMode::Name.only_match_names());
    assert!(!SearchMode::Name.match_binaries());
    assert!(SearchMode::Binary.match_binaries());
    assert!(SearchMode::Binary.only_match_binaries());
    assert!(!SearchMode::Binary.match_names());
    assert!(SearchMode::Both.match_names());
    assert!(SearchMode::Both.match_binaries());
    assert!(!SearchMode::Both.only_match_names());
    assert_eq!(SearchMode::default(), SearchMode::Name);
}

#[test]
fn match_criteria_over_names_and_binaries() {
    let pattern = Pattern::new("^foo").expect("compiles");
    let manifest = Manifest {
        name: String::from("foobar"),
        install_config: InstallConfig {
            bin: Some(StringArray::Array(vec![
                String::from("foo.exe"),
                String::from("other.exe"),
            ])),
            ..InstallConfig::default()
        },
        ..Manifest::default()
    };

    let criteria = MatchCriteria::matches(
        "foobar",
        Some(&manifest),
        SearchMode::Both,
        &pattern,
        Architecture::X64,
    );
    assert!(criteria.name);
    assert_eq!(criteria.bins, vec!["foo.exe"]);

    let empty = MatchCriteria::new();
    assert!(!empty.name);
    assert!(empty.bins.is_empty());

    let none = MatchCriteria::matches("bar", None, SearchMode::Name, &pattern, Architecture::X64);
    assert!(!none.name);
    assert!(none.bins.is_empty());
}

#[test]
fn binary_matches_and_eager_name() {
    let pattern = Pattern::new("grep").expect("compiles");
    let manifest = Manifest {
        install_config: InstallConfig {
            bin: Some(StringArray::Array(vec![
                String::from("grep.exe"),
                String::from("sed.exe"),
            ])),
            ..InstallConfig::default()
        },
        ..Manifest::default()
    };
    let matched = manifest.binary_matches(&pattern, Architecture::X64).expect("matches");
    assert_eq!(matched, vec!["grep.exe"]);

    let no_match = Pattern::new("awk").expect("compiles");
    assert!(manifest.binary_matches(&no_match, Architecture::X64).is_none());

    assert!(SearchMode::Name.eager_name_matches("grep-tool", &pattern));
    assert!(!SearchMode::Name.eager_name_matches("sed-tool", &pattern));
    assert!(SearchMode::Both.eager_name_matches("anything", &pattern));
}

#[test]
fn installed_check_needs_matching_bucket() {
    let record = Some(InstallManifest {
        name: String::from("foo"),
        bucket: Some(String::from("main")),
        hold: None,
    });
    assert!(is_installed(&record, Some("main")));
    assert!(!is_installed(&record, Some("extras")));
    assert!(!is_installed(&record, None));
    assert!(!is_installed(&None, Some("main")));

    let manifest = Manifest { name: String::from("foo"), ..Manifest::default() };
    assert!(manifest.is_installed(&record, Some("main")));
}

#[test]
fn commit_message_matching() {
    let manifest = Manifest { name: String::from("foo"), ..Manifest::default() };
    assert!(manifest.commit_message_matches(Some("foo: update to 2.0")));
    assert!(!manifest.commit_message_matches(Some("bar: update foo")));
    assert!(!manifest.commit_message_matches(None));
}
