use xorcism::cli::{encodes_base64, key_source, KeySource};

#[test]
fn null_key_is_one_zero_byte_and_comes_first() {
    assert_eq!(key_source(true, None, false), KeySource::Given(vec![0]));
    assert_eq!(
        key_source(true, Some(vec![1, 2]), true),
        KeySource::Given(vec![0])
    );
}

#[test]
fn key_literal_comes_before_the_key_file() {
    assert_eq!(
        key_source(false, Some(vec![1, 2]), true),
        KeySource::Given(vec![1, 2])
    );
    assert_eq!(
        key_source(false, Some(vec![1, 2]), false),
        KeySource::Given(vec![1, 2])
    );
    assert_eq!(key_source(false, Some(vec![]), true), KeySource::Given(vec![]));
}

#[test]
fn key_file_is_used_when_nothing_else_is_given() {
    assert_eq!(key_source(false, None, true), KeySource::InFile);
}

#[test]
fn key_is_missing_when_no_option_gives_one() {
    assert_eq!(key_source(false, None, false), KeySource::Missing);
}

#[test]
fn base64_follows_the_flags_before_the_terminal() {
    assert!(encodes_base64(true, false, false));
    assert!(encodes_base64(true, false, true));
    assert!(encodes_base64(true, true, false));
    assert!(encodes_base64(true, true, true));
    assert!(!encodes_base64(false, true, true));
    assert!(!encodes_base64(false, true, false));
}

#[test]
fn base64_defaults_to_on_for_a_terminal() {
    assert!(encodes_base64(false, false, true));
    assert!(!encodes_base64(false, false, false));
}
