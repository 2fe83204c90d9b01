use bluflare::slug::{slug_from_lowercase, slugify};

#[test]
fn test_given_slug_when_slugify_return_unchanged() {
    let s = "hello-world";
    assert_eq!(slugify(s), s);
}

#[test]
fn test_given_data_with_special_characters_when_slugify_return_data_without_special_characters() {
    assert_eq!(slugify("hello, world!?"), "hello-world");
}

#[test]
fn test_given_data_with_mixed_case_when_slugify_return_data_in_lowercase() {
    assert_eq!(slugify("Hello, World"), "hello-world");
}

#[test]
fn test_given_leading_and_trailing_spaces_when_slugify_return_data_without_trailing_spaces() {
    assert_eq!(slugify("   Hello    World    "), "hello-world");
}

#[test]
fn test_given_leading_and_trailing_special_characters_when_slugify_return_data_without_special_characters()
{
    assert_eq!(
        slugify("!)(|}{:\\/Hello__World?|};'098 wow^*"),
        "hello-world-wow"
    );
}

#[test]
fn slug_of_empty_and_symbol_only_text_is_empty() {
    assert_eq!(slugify(""), "");
    assert_eq!(slugify("?!-- 42"), "");
}

#[test]
fn slug_from_lowercase_keeps_uppercase_letters_it_is_given() {
    assert_eq!(slug_from_lowercase("Rust Lang"), "Rust-Lang");
}

#[test]
fn slugify_lowercases_before_folding() {
    assert_eq!(slugify("RUST"), "rust");
}
