//! The Brahmic codepoint scan and the nine-script range table.

use scheme_detect::{detect_scheme, first_brahmic_char};

#[test]
fn first_brahmic_char_returns_first_codepoint() {
    assert_eq!(first_brahmic_char("aधb"), 0x0927);
    assert_eq!(first_brahmic_char("ধर"), 0x09A7);
}

#[test]
fn first_brahmic_char_sentinel_when_absent() {
    assert_eq!(first_brahmic_char("abc"), 0);
    assert_eq!(first_brahmic_char(""), 0);
    assert_eq!(first_brahmic_char("\u{08FF}\u{0D80}"), 0);
}

#[test]
fn one_sample_per_script() {
    assert_eq!(detect_scheme("क"), 1);
    assert_eq!(detect_scheme("ক"), 2);
    assert_eq!(detect_scheme("ਕ"), 3);
    assert_eq!(detect_scheme("ક"), 4);
    assert_eq!(detect_scheme("କ"), 5);
    assert_eq!(detect_scheme("ம"), 6);
    assert_eq!(detect_scheme("క"), 7);
    assert_eq!(detect_scheme("ಕ"), 8);
    assert_eq!(detect_scheme("ക"), 9);
}

#[test]
fn sub_range_boundaries() {
    assert_eq!(detect_scheme("\u{0900}"), 1);
    assert_eq!(detect_scheme("\u{097F}"), 1);
    assert_eq!(detect_scheme("\u{0980}"), 2);
    assert_eq!(detect_scheme("\u{09FF}"), 2);
    assert_eq!(detect_scheme("\u{0A00}"), 3);
    assert_eq!(detect_scheme("\u{0A7F}"), 3);
    assert_eq!(detect_scheme("\u{0A80}"), 4);
    assert_eq!(detect_scheme("\u{0AFF}"), 4);
    assert_eq!(detect_scheme("\u{0B00}"), 5);
    assert_eq!(detect_scheme("\u{0B7F}"), 5);
    assert_eq!(detect_scheme("\u{0B80}"), 6);
    assert_eq!(detect_scheme("\u{0BFF}"), 6);
    assert_eq!(detect_scheme("\u{0C00}"), 7);
    assert_eq!(detect_scheme("\u{0C7F}"), 7);
    assert_eq!(detect_scheme("\u{0C80}"), 8);
    assert_eq!(detect_scheme("\u{0CFF}"), 8);
    assert_eq!(detect_scheme("\u{0D00}"), 9);
    assert_eq!(detect_scheme("\u{0D7F}"), 9);
}

#[test]
fn just_outside_the_combined_range() {
    assert_eq!(detect_scheme("\u{08FF}"), 0);
    assert_eq!(detect_scheme("\u{0D80}"), 0);
}
