use ods_builder_gen::error::Error;
use ods_builder_gen::ident::is_reserved;
use ods_builder_gen::ident::sanitize_snake_case_name;
use ods_builder_gen::ident::str_eq;

#[test]
fn sanitize_lowercases_camel_case() {
    // Fails if case normalization were the identity.
    assert_eq!(sanitize_snake_case_name("FooBar").unwrap(), "foo_bar");
}

#[test]
fn sanitize_keeps_snake_case() {
    assert_eq!(sanitize_snake_case_name("lhs").unwrap(), "lhs");
    assert_eq!(sanitize_snake_case_name("a_b").unwrap(), "a_b");
}

#[test]
fn sanitize_escapes_reserved_word() {
    // The same identifier must come out at every site that mentions the field.
    assert_eq!(sanitize_snake_case_name("else").unwrap(), "else_");
    assert_eq!(sanitize_snake_case_name("type").unwrap(), "type_");
    assert_eq!(sanitize_snake_case_name("loop").unwrap(), "loop_");
}

#[test]
fn sanitize_is_deterministic() {
    let a = sanitize_snake_case_name("else").unwrap();
    let b = sanitize_snake_case_name("else").unwrap();
    assert_eq!(a, b);
}

#[test]
fn sanitize_replaces_unusable_characters() {
    assert_eq!(sanitize_snake_case_name("foo.bar").unwrap(), "foo_bar");
}

#[test]
fn sanitize_rejects_empty_names() {
    match sanitize_snake_case_name("") {
        Err(Error::InvalidName { name }) => assert_eq!(name, ""),
        other => panic!("expected an invalid-name error, got {:?}", other.is_ok()),
    }
}

#[test]
fn reserved_words_are_recognized() {
    assert!(is_reserved("else"));
    assert!(is_reserved("fn"));
    assert!(is_reserved("final"));
    assert!(!is_reserved("else_"));
    assert!(!is_reserved("value"));
}

#[test]
fn str_eq_compares_contents() {
    assert!(str_eq("abc", "abc"));
    assert!(!str_eq("abc", "abd"));
    assert!(!str_eq("abc", "ab"));
}
