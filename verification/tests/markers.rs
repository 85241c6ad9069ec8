//! The preprocessor's two marker-stripping passes.

use scheme_detect::detect_scheme;
use scheme_detect::preprocess::preprocess;

#[test]
fn marker_free_text_passes_unchanged() {
    let text: Vec<char> = "dharma".chars().collect();
    assert_eq!(preprocess(&text), "dharma".chars().collect::<Vec<char>>());
}

#[test]
fn hash_block_is_stripped() {
    let text: Vec<char> = "a##x##b".chars().collect();
    assert_eq!(preprocess(&text), "ab".chars().collect::<Vec<char>>());
}

#[test]
fn brace_block_is_stripped() {
    let text: Vec<char> = "a{#x#}b".chars().collect();
    assert_eq!(preprocess(&text), "ab".chars().collect::<Vec<char>>());
}

#[test]
fn empty_block_is_stripped() {
    let text: Vec<char> = "a####b".chars().collect();
    assert_eq!(preprocess(&text), "ab".chars().collect::<Vec<char>>());
}

#[test]
fn each_escaped_sigil_is_stripped() {
    let a: Vec<char> = "a\\##b".chars().collect();
    assert_eq!(preprocess(&a), "ab".chars().collect::<Vec<char>>());
    let b: Vec<char> = "a\\{#b".chars().collect();
    assert_eq!(preprocess(&b), "ab".chars().collect::<Vec<char>>());
    let c: Vec<char> = "a\\#}b".chars().collect();
    assert_eq!(preprocess(&c), "ab".chars().collect::<Vec<char>>());
}

#[test]
fn escaped_delimiter_is_not_a_live_delimiter() {
    let text: Vec<char> = "\\##x##".chars().collect();
    assert_eq!(preprocess(&text), "x##".chars().collect::<Vec<char>>());
}

#[test]
fn unterminated_block_is_kept_as_text() {
    let text: Vec<char> = "##abc".chars().collect();
    assert_eq!(preprocess(&text), "##abc".chars().collect::<Vec<char>>());
    assert_eq!(detect_scheme("##abc"), 15);
}

#[test]
fn block_must_close_before_a_line_break() {
    let open: Vec<char> = "##a\nb##".chars().collect();
    assert_eq!(preprocess(&open), "##a\nb##".chars().collect::<Vec<char>>());
    let closed: Vec<char> = "##ab##".chars().collect();
    assert_eq!(preprocess(&closed), Vec::<char>::new());
}

#[test]
fn blocks_are_shortest_match() {
    let text: Vec<char> = "##a##b##".chars().collect();
    assert_eq!(preprocess(&text), "b##".chars().collect::<Vec<char>>());
}

#[test]
fn one_pass_does_not_rescan_its_own_output() {
    let text: Vec<char> = "#{#z#}#a##".chars().collect();
    assert_eq!(preprocess(&text), "##a##".chars().collect::<Vec<char>>());
    assert_eq!(detect_scheme("#{#z#}#a##"), 15);
}

#[test]
fn markers_add_no_detection_signal() {
    assert_eq!(detect_scheme("abc##X##def"), detect_scheme("abcdef"));
    assert_eq!(detect_scheme("{#X#}dhaarmik"), detect_scheme("dhaarmik"));
    assert_eq!(detect_scheme("dharma\\##.h"), detect_scheme("dharma.h"));
}
