use release_plz::strutil::{str_contains, str_eq, u16_to_dec};

#[test]
fn str_eq_compares_characters() {
    assert!(str_eq("github.com", "github.com"));
    assert!(!str_eq("github.com", "github.org"));
    assert!(!str_eq("github", "github.com"));
    assert!(str_eq("", ""));
}

#[test]
fn str_contains_finds_runs_anywhere() {
    assert!(str_contains("github.com", "github"));
    assert!(str_contains("my.github.enterprise", "github"));
    assert!(str_contains("github", "github"));
    assert!(!str_contains("gitea.example.com", "github"));
    assert!(!str_contains("git", "github"));
    assert!(str_contains("anything", ""));
}

#[test]
fn u16_to_dec_formats_decimal_digits() {
    assert_eq!(u16_to_dec(0), "0");
    assert_eq!(u16_to_dec(7), "7");
    assert_eq!(u16_to_dec(80), "80");
    assert_eq!(u16_to_dec(8080), "8080");
    assert_eq!(u16_to_dec(65535), "65535");
}
