use anydir::sanitize_identifier;

#[test]
fn identifier_of_plain_name() {
    assert_eq!(sanitize_identifier("assets"), "DIR_ASSETS");
}

#[test]
fn identifier_of_empty_path_is_the_prefix() {
    assert_eq!(sanitize_identifier(""), "DIR_");
}

#[test]
fn identifier_keeps_digits_and_upper_case() {
    assert_eq!(sanitize_identifier("Dir42"), "DIR_DIR42");
}

#[test]
fn identifier_replaces_separators_and_punctuation() {
    assert_eq!(sanitize_identifier("a.b-c/1 d"), "DIR_A_B_C_1_D");
}

#[test]
fn identifier_of_path_with_variable_token() {
    assert_eq!(
        sanitize_identifier("$CARGO_MANIFEST_DIR/assets"),
        "DIR__CARGO_MANIFEST_DIR_ASSETS"
    );
}

#[test]
fn identifier_replaces_each_non_ascii_character_by_one_underscore() {
    assert_eq!(sanitize_identifier("\u{e9}t\u{e9}/\u{4e2d}"), "DIR__T___");
}

#[test]
fn identifier_has_one_character_per_character_of_the_path() {
    let path = "some/dir \u{e9}-x";
    let identifier = sanitize_identifier(path);
    assert_eq!(identifier.chars().count(), 4 + path.chars().count());
    assert!(identifier.starts_with("DIR_"));
    assert!(identifier
        .chars()
        .all(|c| c.is_ascii_uppercase() || c.is_ascii_digit() || c == '_'));
}

#[test]
fn identifier_is_the_same_for_the_same_path() {
    assert_eq!(sanitize_identifier("./assets"), sanitize_identifier("./assets"));
}
