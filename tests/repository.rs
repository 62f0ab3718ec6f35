use statusforge_backend::slug::{slug_from_lowercase, slugify, suffixed_slug, unique_slug};

#[test]
fn test_slugify_basic() {
    assert_eq!(slugify("My Organization"), "my-organization");
}

#[test]
fn test_slugify_with_special_chars() {
    assert_eq!(slugify("Test & Co!"), "test-co");
}

#[test]
fn test_slugify_lowercase() {
    assert_eq!(slugify("UPPERCASE"), "uppercase");
}

#[test]
fn test_slugify_removes_leading_trailing_dashes() {
    assert_eq!(slugify("!!!test!!!"), "test");
}

#[test]
fn test_slugify_preserves_existing_dashes() {
    assert_eq!(slugify("my-org-name"), "my-org-name");
}

#[test]
fn test_slugify_empty_string() {
    assert_eq!(slugify(""), "");
}

#[test]
fn test_slugify_only_special_chars() {
    assert_eq!(slugify("!!!@@@###"), "");
}

#[test]
fn slug_from_lowercase_keeps_case_it_is_given() {
    assert_eq!(slug_from_lowercase("ABC def"), "ABC-def");
}

#[test]
fn slug_collapses_runs_and_keeps_unicode_letters() {
    assert_eq!(slugify("Café  --  Über"), "café-über");
    assert_eq!(slugify("a1 b2"), "a1-b2");
}

#[test]
fn suffixed_slug_takes_eight_characters() {
    assert_eq!(
        suffixed_slug("team", "123e4567-e89b-12d3-a456-426614174000"),
        "team-123e4567"
    );
}

#[test]
fn unique_slug_has_slug_dash_and_eight_hex_digits() {
    let s = unique_slug("My Team");
    assert!(s.starts_with("my-team-"));
    assert_eq!(s.len(), "my-team-".len() + 8);
    assert!(s["my-team-".len()..].chars().all(|c| c.is_ascii_hexdigit()));
}
