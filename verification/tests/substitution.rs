use sfsu::strutil::replace_str;
use sfsu::substitutions::{SubstituteBuilder, Substitute, SubstitutionMap, Version};

#[test]
fn version_token_replaced_everywhere() {
    // A template built from version "1.2.3" has every occurrence of the
    // version token replaced, URLs included, all other characters kept.
    let version = Version::new(String::from("1.2.3"));
    let mut map = SubstitutionMap::new();
    map.append_version(&version);

    let template = String::from("https://x/foo-$version.zip#$version");
    let out = map.substitute(SubstituteBuilder::Text(template), false);
    assert_eq!(out, "https://x/foo-1.2.3.zip#1.2.3");

    let untouched = map.substitute(SubstituteBuilder::Text(String::from("no tokens here")), false);
    assert_eq!(untouched, "no tokens here");
}

#[test]
fn version_decomposition() {
    let v = Version::new(String::from("1.2.3-beta"));
    assert_eq!(v.major, "1");
    assert_eq!(v.minor, "2");
    assert_eq!(v.patch, "3");
    assert_eq!(v.pre_release, "beta");

    let plain = Version::new(String::from("10.0"));
    assert_eq!(plain.major, "10");
    assert_eq!(plain.minor, "0");
    assert_eq!(plain.patch, "");
    assert_eq!(plain.pre_release, "");
}

#[test]
fn version_part_tokens() {
    let version = Version::new(String::from("4.5.6"));
    let mut map = SubstitutionMap::new();
    map.append_version(&version);
    let out = map.substitute(
        SubstituteBuilder::Text(String::from("$majorVersion-$minorVersion-$patchVersion")),
        false,
    );
    assert_eq!(out, "4-5-6");
}

#[test]
fn url_tokens_win_on_collision() {
    // URL-derived tokens are inserted after the version-derived ones, so
    // on a token collision the later insertion overwrites in place.
    let version = Version::new(String::from("2.0.0"));
    let map = SubstitutionMap::from_all(&version, "https://host/dir/tool-2.0.0.tar.gz?sig=abc");
    let out = map.substitute(
        SubstituteBuilder::Text(String::from("$basename|$filename|$extension")),
        false,
    );
    assert_eq!(out, "tool-2.0.0.tar.gz|tool-2.0.0.tar|gz");
}

#[test]
fn insert_overwrites_keeping_order() {
    let mut map = SubstitutionMap::new();
    map.insert(String::from("$a"), String::from("1"));
    map.insert(String::from("$b"), String::from("2"));
    map.insert(String::from("$a"), String::from("3"));
    let out = map.substitute(SubstituteBuilder::Text(String::from("$a $b")), false);
    assert_eq!(out, "3 2");
}

#[test]
fn regex_escape_applied_to_values() {
    let mut map = SubstitutionMap::new();
    map.insert(String::from("$version"), String::from("1.2.3"));
    let escaped = map.substitute(SubstituteBuilder::Text(String::from("tool-$version")), true);
    assert_eq!(escaped, "tool-1\\.2\\.3");

    let plain = map.substitute(SubstituteBuilder::Text(String::from("tool-$version")), false);
    assert_eq!(plain, "tool-1.2.3");
}

#[test]
fn substitute_trait_on_string() {
    let version = Version::new(String::from("7.7.7"));
    let mut map = SubstitutionMap::new();
    map.append_version(&version);

    let mut s = String::from("v$version");
    s.substitute(&map, false);
    assert_eq!(s, "v7.7.7");

    let owned = String::from("v$version").into_substituted(&map, false);
    assert_eq!(owned, "v7.7.7");
}

#[test]
fn literal_replacement() {
    assert_eq!(replace_str("a-b-c", "-", "+"), "a+b+c");
    assert_eq!(replace_str("aaa", "aa", "b"), "ba");
    assert_eq!(replace_str("abc", "", "x"), "abc");
    // Scanning resumes after an inserted value, never inside it.
    assert_eq!(replace_str("abab", "ab", "a"), "aa");
}

#[test]
fn empty_template_and_empty_map() {
    let version = Version::new(String::from("1.2.3"));
    let mut map = SubstitutionMap::new();
    map.append_version(&version);
    assert_eq!(map.substitute(SubstituteBuilder::Text(String::new()), false), "");

    let empty = SubstitutionMap::new();
    assert_eq!(
        empty.substitute(SubstituteBuilder::Text(String::from("$version")), false),
        "$version"
    );
}

#[test]
fn url_decomposition_ignores_query_and_fragment() {
    let version = Version::new(String::from("1.0.0"));
    let map = SubstitutionMap::from_all(&version, "https://host/a/b.zip#frag");
    let out = map.substitute(SubstituteBuilder::Text(String::from("$basename")), false);
    assert_eq!(out, "b.zip");

    let map = SubstitutionMap::from_all(&version, "https://host/a/b.zip?q=1#frag");
    let out = map.substitute(SubstituteBuilder::Text(String::from("$basename")), false);
    assert_eq!(out, "b.zip");
}

#[test]
fn rescanning_inserted_values_is_kept() {
    // A value inserted by an earlier binding may itself be rewritten by a
    // later one: the deliberate rescanning hazard.
    let mut map = SubstitutionMap::new();
    map.insert(String::from("$a"), String::from("x$b"));
    map.insert(String::from("$b"), String::from("y"));
    let out = map.substitute(SubstituteBuilder::Text(String::from("$a")), false);
    assert_eq!(out, "xy");
}
