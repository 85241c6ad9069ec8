//! The romanization signature rules: each rule's canonical examples match
//! that rule alone among the scheme-specific rules, and the cascade picks
//! the expected scheme.

use scheme_detect::detect_scheme;
use scheme_detect::romanization::{
    has_harvard_kyoto_signature, has_iast_signature, has_itrans_only_signature,
    has_itrans_or_velthuis_signature, has_kolkata_signature, has_slp1_signature,
    has_velthuis_only_signature,
};

#[test]
fn itrans_examples_match_no_other_only_rule() {
    let examples = ["ee", "oo", "^i", "^I", "RRi", "RRI", "Li", "LI", "~N", "N^", "chh", "JN",
        "sh", "Sh", ".a"];
    for ex in examples {
        let v: Vec<char> = ex.chars().collect();
        assert!(has_itrans_only_signature(&v), "{ex}");
        assert!(!has_slp1_signature(&v), "{ex}");
        assert!(!has_velthuis_only_signature(&v), "{ex}");
    }
}

#[test]
fn slp1_examples_match_no_other_only_rule() {
    let examples = ["f", "F", "x", "X", "E", "O", "C", "Y", "w", "W", "q", "Q", "P", "B", "kz",
        "Nk", "Ng", "tT", "dD", "Sc", "Sn", "aR", "uR", "Gy", "Gr"];
    for ex in examples {
        let v: Vec<char> = ex.chars().collect();
        assert!(has_slp1_signature(&v), "{ex}");
        assert!(!has_itrans_only_signature(&v), "{ex}");
        assert!(!has_velthuis_only_signature(&v), "{ex}");
    }
}

#[test]
fn velthuis_examples_match_no_other_only_rule() {
    let examples = [".m", ".h", ".n", ".r", ".l", ".t", ".d", ".s", "\"n", "~s"];
    for ex in examples {
        let v: Vec<char> = ex.chars().collect();
        assert!(has_velthuis_only_signature(&v), "{ex}");
        assert!(!has_itrans_only_signature(&v), "{ex}");
        assert!(!has_slp1_signature(&v), "{ex}");
    }
}

#[test]
fn iast_family_examples() {
    for ex in ["ā", "ṝ", "ḻ", "Ṃ", "a\u{0304}", "r\u{0323}", "n\u{0307}", "n\u{0303}",
        "s\u{0301}", "l\u{0331}", "ṭ"] {
        let v: Vec<char> = ex.chars().collect();
        assert!(has_iast_signature(&v), "{ex}");
    }
    let plain: Vec<char> = "dharma".chars().collect();
    assert!(!has_iast_signature(&plain));
}

#[test]
fn kolkata_markers_are_a_subset_of_iast_markers() {
    for ex in ["ē", "ō", "Ē", "Ō", "e\u{0304}", "O\u{0304}"] {
        let v: Vec<char> = ex.chars().collect();
        assert!(has_kolkata_signature(&v), "{ex}");
        assert!(has_iast_signature(&v), "{ex}");
    }
    let iast_only: Vec<char> = "ā".chars().collect();
    assert!(!has_kolkata_signature(&iast_only));
}

#[test]
fn shared_itrans_velthuis_markers() {
    for ex in ["aa", "ii", "uu", "~n"] {
        let v: Vec<char> = ex.chars().collect();
        assert!(has_itrans_or_velthuis_signature(&v), "{ex}");
        assert!(!has_itrans_only_signature(&v), "{ex}");
        assert!(!has_velthuis_only_signature(&v), "{ex}");
        assert_eq!(detect_scheme(ex), 12, "{ex}");
    }
}

#[test]
fn harvard_kyoto_letters_and_nonletters() {
    let letters: Vec<char> = "dharma".chars().collect();
    assert!(has_harvard_kyoto_signature(&letters));
    let nonletters: Vec<char> = "123 +-#".chars().collect();
    assert!(!has_harvard_kyoto_signature(&nonletters));
}

#[test]
fn cascade_codes_for_each_rule() {
    assert_eq!(detect_scheme("ā"), 10);
    assert_eq!(detect_scheme("ē"), 11);
    assert_eq!(detect_scheme("chh"), 12);
    assert_eq!(detect_scheme("kz"), 13);
    assert_eq!(detect_scheme("\"n"), 14);
    assert_eq!(detect_scheme("aa"), 12);
    assert_eq!(detect_scheme("dharma"), 15);
}

#[test]
fn texts_can_still_mix_rules_and_precedence_decides() {
    let mixed: Vec<char> = "shE".chars().collect();
    assert!(has_itrans_only_signature(&mixed));
    assert!(has_slp1_signature(&mixed));
    assert_eq!(detect_scheme("shE"), 12);
}
