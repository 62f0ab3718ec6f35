use statusforge_backend::utils;

#[test]
fn test_uuid_v4_generates_valid_uuid() {
    let uuid = utils::uuid_v4();
    assert!(uuid::Uuid::parse_str(&uuid).is_ok());
}

#[test]
fn test_uuid_v4_generates_unique_uuids() {
    let uuid1 = utils::uuid_v4();
    let uuid2 = utils::uuid_v4();
    assert_ne!(uuid1, uuid2);
}

#[test]
fn test_uuid_v4_format() {
    let uuid = utils::uuid_v4();
    assert_eq!(uuid.len(), 36);
    assert!(uuid.contains('-'));
}

#[test]
fn uuid_v4_is_lowercase_hyphenated() {
    let uuid = utils::uuid_v4();
    for (i, c) in uuid.chars().enumerate() {
        if i == 8 || i == 13 || i == 18 || i == 23 {
            assert_eq!(c, '-');
        } else {
            assert!(c.is_ascii_digit() || ('a'..='f').contains(&c));
        }
    }
}
