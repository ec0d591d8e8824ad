use component_name_casing::casing::{
    has_consecutive_hyphens, has_symbols, has_underscore_or_whitespace, has_upper,
    is_kebab_case, kebab_to_pascal, starts_with_hyphen,
};

#[test]
fn has_symbols_cases() {
    assert!(!has_symbols(""));
    assert!(!has_symbols("foo-bar"));
    assert!(!has_symbols("FooBar"));
    assert!(has_symbols("foo!bar"));
    assert!(has_symbols("foo_bar"));
    assert!(has_symbols("foo  bar"));
    assert!(has_symbols("foo1"));
    assert!(has_symbols("é"));
}

#[test]
fn has_upper_cases() {
    assert!(!has_upper("foo-bar"));
    assert!(has_upper("fooBar"));
    assert!(has_upper("Δelta"));
    assert!(!has_upper("δelta"));
    assert!(!has_upper("123_!"));
}

#[test]
fn starts_with_hyphen_cases() {
    assert!(!starts_with_hyphen(""));
    assert!(starts_with_hyphen("-foo"));
    assert!(!starts_with_hyphen("foo-"));
}

#[test]
fn has_consecutive_hyphens_cases() {
    assert!(!has_consecutive_hyphens("foo-bar"));
    assert!(has_consecutive_hyphens("foo--bar"));
    assert!(has_consecutive_hyphens("--"));
    assert!(!has_consecutive_hyphens("-a-b-"));
    assert!(!has_consecutive_hyphens(""));
}

#[test]
fn has_underscore_or_whitespace_cases() {
    assert!(has_underscore_or_whitespace("foo_bar"));
    assert!(has_underscore_or_whitespace("foo bar"));
    assert!(has_underscore_or_whitespace("foo\tbar"));
    assert!(has_underscore_or_whitespace("foo\u{3000}bar"));
    assert!(!has_underscore_or_whitespace("foo-bar"));
}

#[test]
fn is_kebab_case_cases() {
    assert!(is_kebab_case("foo-bar"));
    assert!(is_kebab_case("foo"));
    assert!(is_kebab_case(""));
    assert!(is_kebab_case("foo-"));
    assert!(!is_kebab_case("-foo"));
    assert!(!is_kebab_case("foo--bar"));
    assert!(!is_kebab_case("FooBar"));
    assert!(!is_kebab_case("foo_bar"));
    assert!(!is_kebab_case("foo bar"));
    assert!(!is_kebab_case("foo1"));
}

#[test]
fn kebab_to_pascal_cases() {
    assert_eq!(kebab_to_pascal("foo-bar"), "FooBar");
    assert_eq!(kebab_to_pascal("my-component"), "MyComponent");
    assert_eq!(kebab_to_pascal("foo"), "Foo");
    assert_eq!(kebab_to_pascal(""), "");
    assert_eq!(kebab_to_pascal("a--b"), "AB");
    assert_eq!(kebab_to_pascal("-foo"), "Foo");
    assert_eq!(kebab_to_pascal("foo-"), "Foo");
    assert_eq!(kebab_to_pascal("---"), "");
    assert_eq!(kebab_to_pascal("FooBar"), "FooBar");
    assert_eq!(kebab_to_pascal("foo-1x"), "Foo1x");
    assert_eq!(kebab_to_pascal("é-é"), "éé");
}

#[test]
fn kebab_case_means_lowercase_letters_and_single_inner_hyphens() {
    for name in ["a", "ab-c", "x-y-z", "q-"] {
        assert!(is_kebab_case(name));
        assert!(name.chars().all(|c| c.is_ascii_lowercase() || c == '-'));
    }
}

#[test]
fn pascal_form_of_kebab_name_is_accepted() {
    for name in ["foo-bar", "a", "x-y-z", "my-component-", "q"] {
        let fixed = kebab_to_pascal(name);
        assert!(!has_symbols(&fixed));
        assert!(!is_kebab_case(&fixed));
    }
    // The empty name is the one exception: its form is empty and kebab-case again.
    assert!(is_kebab_case(&kebab_to_pascal("")));
}

#[test]
fn kebab_to_pascal_is_idempotent() {
    for name in ["foo-bar", "-a--b-", "", "Foo-bar", "é-x", "a_b-c"] {
        let once = kebab_to_pascal(name);
        assert_eq!(kebab_to_pascal(&once), once);
        assert!(!once.contains('-'));
    }
}
