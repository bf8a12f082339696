use harvesting::diacritics::strip_diacritics;
use harvesting::text::{join, str_eq};

#[test]
fn diacritics_are_stripped() {
    assert_eq!(strip_diacritics("Café naïve"), "Cafe naive");
}

#[test]
fn ascii_is_unchanged() {
    let s = "The quick brown fox, 1234567890 ~!@#$%^&*()_+";
    assert_eq!(strip_diacritics(s), s);
    assert_eq!(strip_diacritics(""), "");
}

#[test]
fn compatibility_forms_are_decomposed() {
    // The ligature "fi" decomposes into its two letters.
    assert_eq!(strip_diacritics("\u{fb01}n"), "fin");
    // A combining acute accent by itself is a mark and is dropped.
    assert_eq!(strip_diacritics("e\u{301}"), "e");
    assert_eq!(strip_diacritics("Città"), "Citta");
}

#[test]
fn join_puts_the_separator_between() {
    assert_eq!(join(&vec![], ":"), "");
    assert_eq!(join(&vec!["a"], ":"), "a");
    assert_eq!(join(&vec!["a", "b", "c"], ":"), "a:b:c");
    assert_eq!(join(&vec!["a", "", "c"], " "), "a  c");
    assert_eq!(join(&vec!["a", "b"], ""), "ab");
}

#[test]
fn str_eq_compares_by_content() {
    assert!(str_eq("", ""));
    assert!(str_eq("abc", "abc"));
    assert!(!str_eq("abc", "abd"));
    assert!(!str_eq("abc", "ab"));
    assert!(str_eq("é", "\u{e9}"));
}

#[test]
fn every_ascii_character_is_kept() {
    let all: String = (0u8..128).map(|b| b as char).collect();
    assert_eq!(strip_diacritics(&all), all);
}
