use certsd::strutil::{str_contains, str_eq};

#[test]
fn substring_search() {
    assert!(str_contains("abcdef", "cde"));
    assert!(str_contains("abcdef", ""));
    assert!(str_contains("abcdef", "abcdef"));
    assert!(!str_contains("abcdef", "cdf"));
    assert!(!str_contains("ab", "abc"));
    assert!(str_contains("_acme-challenge.example.com.", "_acme-challenge"));
    assert!(str_contains("_acme-challenge.example.com.", "example.com"));
}

#[test]
fn string_equality() {
    assert!(str_eq("", ""));
    assert!(str_eq("domain.key", "domain.key"));
    assert!(!str_eq("domain.key", "domain.pem"));
    assert!(!str_eq("short", "shorter"));
}
