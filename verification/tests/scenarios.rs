//! End-to-end classification scenarios through the public API.

use scheme_detect::{classify, detect_scheme, Scheme};

#[test]
fn devanagari_text() {
    assert_eq!(detect_scheme("धर्म"), 1);
    assert_eq!(classify("धर्म"), Scheme::Devanagari);
}

#[test]
fn plain_latin_is_harvard_kyoto() {
    assert_eq!(detect_scheme("dharma"), 15);
    assert_eq!(classify("dharma"), Scheme::HarvardKyoto);
}

#[test]
fn control_block_does_not_change_result() {
    assert_eq!(detect_scheme("dharma##comment##"), detect_scheme("dharma"));
    assert_eq!(detect_scheme("dharma##comment##"), 15);
}

#[test]
fn escaped_sigil_does_not_change_result() {
    assert_eq!(detect_scheme("dharma\\##"), detect_scheme("dharma"));
    assert_eq!(detect_scheme("dharma\\##"), 15);
}

#[test]
fn doubled_vowel_resolves_to_itrans() {
    assert_eq!(detect_scheme("dhaarmik"), 12);
    assert_eq!(classify("dhaarmik"), Scheme::Itrans);
}

#[test]
fn velthuis_dot_h() {
    assert_eq!(detect_scheme("dharma.h"), 14);
    assert_eq!(classify("dharma.h"), Scheme::Velthuis);
}

#[test]
fn iast_precomposed_underdot_h() {
    assert_eq!(detect_scheme("dharmaḥ"), 10);
    assert_eq!(classify("dharmaḥ"), Scheme::Iast);
}

#[test]
fn iast_combining_underdot_h() {
    assert_eq!(detect_scheme("dharmah\u{0323}"), 10);
}

#[test]
fn kolkata_precomposed_long_e() {
    assert_eq!(detect_scheme("vēda"), 11);
    assert_eq!(classify("vēda"), Scheme::Kolkata);
}

#[test]
fn kolkata_combining_long_o() {
    assert_eq!(detect_scheme("so\u{0304}ma"), 11);
}

#[test]
fn empty_string_is_unknown() {
    assert_eq!(detect_scheme(""), 0);
    assert_eq!(classify(""), Scheme::Unknown);
}

#[test]
fn unmatchable_text_is_unknown() {
    assert_eq!(detect_scheme("123 +-*/"), 0);
    assert_eq!(classify("123 +-*/"), Scheme::Unknown);
}

#[test]
fn same_text_same_result() {
    let text = "dhaarmik##note##";
    assert_eq!(detect_scheme(text), detect_scheme(text));
    assert_eq!(classify(text), classify(text));
}

#[test]
fn every_result_is_one_of_sixteen_codes() {
    let inputs = [
        "",
        "धर्म",
        "dharma",
        "dhaarmik",
        "dharma.h",
        "dharmaḥ",
        "vēda",
        "kz",
        "##x##",
        "\\##",
        "~N",
        "123",
        "தமிழ்",
    ];
    for text in inputs {
        assert!(detect_scheme(text) <= 15);
    }
}

#[test]
fn brahmic_wins_over_latin_content() {
    assert_eq!(detect_scheme("dharma धर्म"), 1);
    assert_eq!(detect_scheme("dhaarmik ಕನ್ನಡ"), 8);
    assert_eq!(detect_scheme("dharmaḥ தமிழ்"), 6);
}

#[test]
fn first_brahmic_codepoint_decides_mixed_scripts() {
    assert_eq!(detect_scheme("ধര्म"), 2);
    assert_eq!(detect_scheme("धর্ম"), 1);
}

#[test]
fn itrans_beats_slp1_by_precedence() {
    assert_eq!(detect_scheme("Ch"), 12);
}

#[test]
fn iast_beats_itrans_by_precedence() {
    assert_eq!(detect_scheme("śee"), 10);
}

#[test]
fn brahmic_inside_block_is_stripped_before_the_scan() {
    assert_eq!(detect_scheme("##ध##"), 0);
    assert_eq!(detect_scheme("##ध##dharma"), 15);
}
