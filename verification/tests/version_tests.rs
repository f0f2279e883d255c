use bext::text::{decimal_string, replace_all};
use bext::version::{parse_lenient_all, versions_to_strings, SemVersion};

#[test]
fn strict_parse_and_text() {
    let v = SemVersion::parse("1.2.3-beta.1+build.5").unwrap();
    assert_eq!((v.major, v.minor, v.patch), (1, 2, 3));
    assert_eq!(v.pre, "beta.1");
    assert_eq!(v.build, "build.5");
    assert_eq!(v.to_string(), "1.2.3-beta.1+build.5");
    assert_eq!(v.major_minor(), "1.2");
    assert!(SemVersion::parse("4.2").is_err());
    assert!(SemVersion::parse("01.2.3").is_err());
}

#[test]
fn lenient_parse_completes_short_versions() {
    assert_eq!(SemVersion::parse_lenient("4.2").unwrap().to_string(), "4.2.0");
    assert_eq!(SemVersion::parse_lenient("4").unwrap().to_string(), "4.0.0");
    assert_eq!(SemVersion::parse_lenient("4.1.2").unwrap().to_string(), "4.1.2");
    assert!(SemVersion::parse_lenient("four").is_err());
}

#[test]
fn lists_of_versions() {
    let texts = vec!["4.2".to_string(), "4.1".to_string()];
    let versions = parse_lenient_all(&texts).unwrap();
    assert_eq!(versions_to_strings(&versions), vec!["4.2.0".to_string(), "4.1.0".to_string()]);
    assert!(parse_lenient_all(&vec!["4.2".to_string(), "x".to_string()]).is_err());
}

#[test]
fn duplicate_keeps_every_field() {
    let v = SemVersion::parse("1.0.0-rc.1").unwrap();
    assert_eq!(v.duplicate(), v);
}

#[test]
fn decimal_text() {
    assert_eq!(decimal_string(0), "0");
    assert_eq!(decimal_string(42), "42");
    assert_eq!(decimal_string(u64::MAX), "18446744073709551615");
}

#[test]
fn replace_all_matches_str_replace() {
    assert_eq!(replace_all("{name} ({version})", "{name}", "Addon"), "Addon ({version})");
    assert_eq!(replace_all("aaa", "aa", "b"), "ba");
    assert_eq!(replace_all("abc", "x", "y"), "abc");
    assert_eq!(replace_all("a\\b\\c", "\\", "/"), "a/b/c");
}

#[test]
fn replace_all_with_an_empty_pattern() {
    assert_eq!(replace_all("abc", "", "-"), "abc".replace("", "-"));
    assert_eq!(replace_all("abc", "", "-"), "-a-b-c-");
    assert_eq!(replace_all("", "", "x"), "x");
}
