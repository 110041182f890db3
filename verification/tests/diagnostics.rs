use sfsu::diagnostics::Diagnostics;

#[test]
fn main_bucket_detection() {
    let buckets = vec![String::from("extras"), String::from("main"), String::from("versions")];
    assert!(Diagnostics::check_main_bucket(&buckets));

    let without = vec![String::from("extras"), String::from("maine")];
    assert!(!Diagnostics::check_main_bucket(&without));

    assert!(!Diagnostics::check_main_bucket(&vec![]));
}

#[test]
fn expected_helpers_and_missing() {
    let helpers = Diagnostics::expected_helpers();
    assert_eq!(helpers.len(), 3);
    assert_eq!(helpers[0].exe, "7z");

    let found = vec![true, false, true];
    let missing = Diagnostics::missing_from(helpers, &found);
    assert_eq!(missing.len(), 1);
    assert_eq!(missing[0].exe, "innounp");
}
