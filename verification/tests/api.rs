use std::cmp::Ordering;

use dewey::Version;
use dewey::VersionCmp;

#[test]
fn version_view_keeps_the_text() {
    let v = Version::from("1.0rc2");
    assert_eq!(v.as_str(), "1.0rc2");
}

#[test]
fn version_from_str_matches_version_method() {
    let v: Version = "3.14".version();
    assert_eq!(v.as_str(), "3.14");
}

#[test]
fn version_equality_follows_compare() {
    assert!(Version::from("1") == Version::from("1.0.0"));
    assert!(Version::from("1") != Version::from("1.1"));
}

#[test]
fn incomparable_versions_are_unequal_not_an_error() {
    let a = Version::from("7.3.2");
    let b = Version::from("7.3ce.1");
    assert_eq!(a.partial_cmp(&b), None);
    assert!(a != b);
}

#[test]
fn version_operators_follow_compare() {
    assert!(Version::from("1.0") < Version::from("1.1"));
    assert!(Version::from("0.0.1") < Version::from("1"));
}

#[test]
fn reflexive_on_a_mixed_scheme_string() {
    let s = "2.7a-3rc1pl0";
    assert_eq!(s.ver_cmp(s), Some(Ordering::Equal));
}

#[test]
fn trailing_noise_suffixes_compare_equal() {
    assert_eq!("1".ver_cmp("1.0.0"), Some(Ordering::Equal));
    assert_eq!("1.0".ver_cmp("1.0.0"), Some(Ordering::Equal));
    assert_eq!("1pl0".ver_cmp("1"), Some(Ordering::Equal));
}

#[test]
fn empty_input_is_a_bare_release() {
    assert_eq!("".ver_cmp(""), Some(Ordering::Equal));
    assert_eq!("".ver_cmp("0"), Some(Ordering::Equal));
    assert_eq!("".ver_cmp("."), Some(Ordering::Equal));
    assert_eq!("".ver_cmp("1"), Some(Ordering::Less));
    assert_eq!("".ver_cmp("a"), Some(Ordering::Less));
    assert_eq!("".ver_cmp("pre"), Some(Ordering::Greater));
}

#[test]
fn incomparable_heads_ignore_matching_suffixes() {
    // The aligned pair '.' versus 'a' is incomparable; the identical "9"
    // suffixes and the later divergence change nothing.
    assert_eq!("1.2a9".ver_cmp("1.2.9"), None);
    assert_eq!("1.2a9x".ver_cmp("1.2.9y"), None);
}

#[test]
fn digit_runs_wrapping_past_64_bits_compare_wrapped() {
    // One digit run is folded into a 64-bit accumulator that wraps: 2^64
    // collapses to 0.
    assert_eq!("18446744073709551616".ver_cmp("0"), Some(Ordering::Equal));
}

#[test]
fn non_ascii_fallback_chars_order_by_scalar_value() {
    assert_eq!("é".ver_cmp("ü"), Some(Ordering::Less));
    assert_eq!("ü".ver_cmp("é"), Some(Ordering::Greater));
    assert_eq!("é".ver_cmp("é"), Some(Ordering::Equal));
}
