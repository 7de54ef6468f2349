use fluent_number::canonical::{canonical_text, written_fraction_len};
use fluent_number::text::{chars_of, same_text};

#[test]
fn canonical_text_of_a_rendering() {
    assert_eq!(canonical_text("1234.500000000000000", 15, None), "1234.5");
    assert_eq!(canonical_text("5.000", 3, Some(2)), "5.00");
    assert_eq!(canonical_text("5.000", 3, Some(0)), "5");
    assert_eq!(canonical_text("5.000", 3, None), "5");
    assert_eq!(canonical_text("0.125", 3, Some(1)), "0.125");
    assert_eq!(canonical_text("0.120", 3, Some(5)), "0.12000");
}

#[test]
fn canonical_text_without_fraction_digits() {
    assert_eq!(canonical_text("5", 0, Some(2)), "5");
    assert_eq!(canonical_text("5", 0, None), "5");
    assert_eq!(canonical_text("120", 0, None), "12");
}

#[test]
fn canonical_text_drops_every_trailing_point() {
    assert_eq!(canonical_text("1..", 2, None), "1");
    assert_eq!(canonical_text("1.0.0", 2, Some(1)), "1.0");
    assert_eq!(canonical_text("", 2, None), "");
}

#[test]
fn written_fraction_len_of_a_text() {
    assert_eq!(written_fraction_len("1.50"), Some(2));
    assert_eq!(written_fraction_len("10"), None);
    assert_eq!(written_fraction_len("1."), Some(0));
    assert_eq!(written_fraction_len(".5"), Some(1));
    assert_eq!(written_fraction_len("1.2.3"), Some(3));
    assert_eq!(written_fraction_len(""), None);
}

#[test]
fn same_text_compares_characters() {
    assert!(same_text("style", "style"));
    assert!(!same_text("style", "styl"));
    assert!(!same_text("style", "stylE"));
    assert!(same_text("", ""));
    assert!(!same_text("", "a"));
    assert!(same_text("z\u{e9}ro", "z\u{e9}ro"));
}

#[test]
fn chars_of_a_text() {
    assert_eq!(chars_of("1.5"), vec!['1', '.', '5']);
    assert_eq!(chars_of(""), Vec::<char>::new());
    assert_eq!(chars_of("\u{e9}0"), vec!['\u{e9}', '0']);
}
