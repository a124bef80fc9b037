use inth_oauth2_async::text::{str_eq, str_eq_ignore_case};

#[test]
fn str_eq_compares_every_character() {
    assert!(str_eq("", ""));
    assert!(str_eq("invalid_client", "invalid_client"));
    assert!(str_eq("é", "é"));
    assert!(!str_eq("invalid_client", "invalid_clienT"));
    assert!(!str_eq("invalid_client", "invalid_clien"));
    assert!(!str_eq("", "a"));
    assert!(!str_eq("ab", "ba"));
    // Same number of bytes, another number of characters.
    assert!(!str_eq("é", "ab"));
}

#[test]
fn str_eq_ignore_case_folds_ascii_letters_only() {
    assert!(str_eq_ignore_case("", ""));
    assert!(str_eq_ignore_case("bearer", "BEARER"));
    assert!(str_eq_ignore_case("BeArEr", "bEaReR"));
    assert!(str_eq_ignore_case("az09_-", "AZ09_-"));
    assert!(str_eq_ignore_case("é", "é"));
    assert!(!str_eq_ignore_case("é", "É"));
    assert!(!str_eq_ignore_case("k", "\u{212A}"));
    assert!(!str_eq_ignore_case("bearer", "bearer "));
    assert!(!str_eq_ignore_case("bearer", "bearen"));
    // `@` and `` ` ``, `[` and `{` stand 32 apart, but are no letters.
    assert!(!str_eq_ignore_case("@", "`"));
    assert!(!str_eq_ignore_case("[", "{"));
}
