//! The classifier: a single pure function from a text value to one of the
//! sixteen scheme identifiers.
//!
//! The cleaned text is first scanned for a Brahmic codepoint; one hit is
//! decisive and maps through the range table to a native script. Otherwise
//! the romanization signatures are evaluated in a fixed precedence order,
//! most specific first, with Harvard-Kyoto as the maximally permissive
//! catch-all and `Unknown` when nothing at all matches.

use vstd::prelude::*;
use crate::scheme::{Scheme, scheme_code};
use crate::preprocess::{
    spec_preprocess, spec_escape_pair, backslash_free, marker_free, newline_free, preprocess,
    lemma_strip_escapes_through, lemma_strip_escapes_marker, lemma_strip_blocks_through,
    lemma_strip_blocks_hash_block, lemma_strip_blocks_brace_block, lemma_preprocess_id,
};
use crate::brahmic::{
    spec_brahmic_char, spec_first_brahmic, spec_brahmic_scheme, first_brahmic_in,
    brahmic_scheme_of, lemma_first_brahmic_from_witness,
};
use crate::romanization::{
    spec_has_iast_sig, spec_has_kolkata_sig, spec_has_itrans_sig, spec_has_slp1_sig,
    spec_has_velthuis_sig, spec_has_itrans_velthuis_sig, spec_has_hk_sig, has_iast_signature,
    has_kolkata_signature, has_itrans_only_signature, has_slp1_signature,
    has_velthuis_only_signature, has_itrans_or_velthuis_signature, has_harvard_kyoto_signature,
};

verus! {

/// The identifier assigned to a text that has already been preprocessed:
/// the first Brahmic codepoint decides if there is one; otherwise the first
/// matching romanization rule decides, in the fixed precedence order; a
/// remaining ambiguous ITRANS/Velthuis marker resolves to ITRANS.
pub open spec fn spec_classify_cleaned(t: Seq<char>) -> Scheme {
    if spec_first_brahmic(t) != 0 {
        spec_brahmic_scheme(spec_first_brahmic(t))
    } else if spec_has_iast_sig(t) {
        if spec_has_kolkata_sig(t) {
            Scheme::Kolkata
        } else {
            Scheme::Iast
        }
    } else if spec_has_itrans_sig(t) {
        Scheme::Itrans
    } else if spec_has_slp1_sig(t) {
        Scheme::Slp1
    } else if spec_has_velthuis_sig(t) {
        Scheme::Velthuis
    } else if spec_has_itrans_velthuis_sig(t) {
        Scheme::Itrans
    } else if spec_has_hk_sig(t) {
        Scheme::HarvardKyoto
    } else {
        Scheme::Unknown
    }
}

/// The identifier assigned to a raw text value: control markers are
/// stripped first, then the cleaned text is classified.
pub open spec fn spec_classify(s: Seq<char>) -> Scheme {
    spec_classify_cleaned(spec_preprocess(s))
}

/// Classifies a text that carries no control markers: the Brahmic scan
/// first, then the romanization cascade.
pub fn classify_cleaned(t: &Vec<char>) -> (r: Scheme)
    ensures
        r == spec_classify_cleaned(t@),
{
    let cp = first_brahmic_in(t);
    if cp != 0 {
        brahmic_scheme_of(cp)
    } else if has_iast_signature(t) {
        if has_kolkata_signature(t) {
            Scheme::Kolkata
        } else {
            Scheme::Iast
        }
    } else if has_itrans_only_signature(t) {
        Scheme::Itrans
    } else if has_slp1_signature(t) {
        Scheme::Slp1
    } else if has_velthuis_only_signature(t) {
        Scheme::Velthuis
    } else if has_itrans_or_velthuis_signature(t) {
        Scheme::Itrans
    } else if has_harvard_kyoto_signature(t) {
        Scheme::HarvardKyoto
    } else {
        Scheme::Unknown
    }
}

/// Copies a string's characters into a vector, in input order.
fn to_char_vec(s: &str) -> (r: Vec<char>)
    ensures
        r@ == s@,
{
    let n = s.unicode_len();
    let mut r: Vec<char> = Vec::new();
    let mut i: usize = 0;
    while i < n
        invariant
            i <= n,
            n == s@.len(),
            r@ == s@.subrange(0, i as int),
        decreases n - i,
    {
        let c = s.get_char(i);
        proof {
            assert(s@.subrange(0, i as int) + seq![s@[i as int]] =~= s@.subrange(
                0,
                i as int + 1,
            ));
        }
        r.push(c);
        i += 1;
    }
    proof {
        assert(s@.subrange(0, n as int) =~= s@);
    }
    r
}

/// Classifies an arbitrary Unicode text value, empty included, as exactly
/// one of the sixteen scheme identifiers. Total and deterministic: the
/// result is a pure function of the text, and no input fails.
pub fn classify(s: &str) -> (r: Scheme)
    ensures
        r == spec_classify(s@),
{
    let chars = to_char_vec(s);
    let cleaned = preprocess(&chars);
    classify_cleaned(&cleaned)
}

/// Classifies a text value and returns the numeric code of the resulting
/// identifier: `0` for no match through `15` for Harvard-Kyoto.
pub fn detect_scheme(s: &str) -> (r: usize)
    ensures
        r as int == scheme_code(spec_classify(s@)),
        r <= 15,
{
    let sch = classify(s);
    sch.code()
}

/// Determinism: one text value has one classification. Together with the
/// contract of [`classify`], two calls on the same text return the same
/// identifier.
pub proof fn lemma_classify_deterministic(s: Seq<char>, r1: Scheme, r2: Scheme)
    requires
        r1 == spec_classify(s),
        r2 == spec_classify(s),
    ensures
        r1 == r2,
{
}

/// Brahmic precedence: a cleaned text whose first Brahmic codepoint stands
/// at position `i` is classified as that codepoint's native script,
/// whatever Latin content surrounds it — and never as `Unknown`, since the
/// nine sub-ranges tile the whole combined range.
pub proof fn lemma_brahmic_precedence(t: Seq<char>, i: int)
    requires
        0 <= i < t.len(),
        spec_brahmic_char(t[i]),
        forall|j: int| 0 <= j < i ==> !spec_brahmic_char(t[j]),
    ensures
        spec_classify_cleaned(t) == spec_brahmic_scheme(t[i] as u32 as int),
        spec_classify_cleaned(t) != Scheme::Unknown,
{
    lemma_first_brahmic_from_witness(t, 0, i);
}

/// Brahmic precedence for a raw text value: when the text carries no
/// control-marker syntax at all, preprocessing leaves it unchanged, so its
/// first Brahmic codepoint decides the classification directly.
pub proof fn lemma_brahmic_precedence_marker_free(t: Seq<char>, i: int)
    requires
        marker_free(t),
        0 <= i < t.len(),
        spec_brahmic_char(t[i]),
        forall|j: int| 0 <= j < i ==> !spec_brahmic_char(t[j]),
    ensures
        spec_classify(t) == spec_brahmic_scheme(t[i] as u32 as int),
        spec_classify(t) != Scheme::Unknown,
{
    lemma_preprocess_id(t);
    lemma_brahmic_precedence(t, i);
}

/// Control-marker invisibility, escaped form: deleting a well-formed
/// escaped sigil from a text changes nothing about its classification,
/// provided no backslash precedes it (an earlier escape could otherwise
/// swallow different characters).
pub proof fn lemma_escaped_marker_invisible(u: Seq<char>, a: char, b: char, v: Seq<char>)
    requires
        backslash_free(u),
        spec_escape_pair(a, b),
    ensures
        spec_classify(u + seq!['\\', a, b] + v) == spec_classify(u + v),
{
    let esc = seq!['\\', a, b];
    assert(u + esc + v =~= u + (esc + v));
    lemma_strip_escapes_through(u, esc + v);
    lemma_strip_escapes_marker(a, b, v);
    lemma_strip_escapes_through(u, v);
}

/// Control-marker invisibility, `##`...`##` block form: deleting a
/// well-formed block changes nothing about the classification, provided the
/// surrounding text opens no marker of its own and the block's content
/// stays on one line and carries no sigil.
pub proof fn lemma_hash_block_invisible(u: Seq<char>, w: Seq<char>, v: Seq<char>)
    requires
        marker_free(u),
        marker_free(w),
        newline_free(w),
    ensures
        spec_classify(u + seq!['#', '#'] + w + seq!['#', '#'] + v) == spec_classify(u + v),
{
    let block = seq!['#', '#'] + w + seq!['#', '#'];
    assert(backslash_free(u)) by {
        assert forall|j: int| 0 <= j < u.len() implies u[j] != '\\' by {}
    }
    assert(backslash_free(u + block)) by {
        assert forall|j: int| 0 <= j < (u + block).len() implies (u + block)[j] != '\\' by {
            if j < u.len() {
                assert((u + block)[j] == u[j]);
            } else {
                assert((u + block)[j] == block[j - u.len()]);
                if 2 <= j - u.len() < 2 + w.len() {
                    assert(block[j - u.len()] == w[j - u.len() - 2]);
                }
            }
        }
    }
    assert(u + seq!['#', '#'] + w + seq!['#', '#'] + v =~= (u + block) + v);
    lemma_strip_escapes_through(u + block, v);
    lemma_strip_escapes_through(u, v);
    let v1 = crate::preprocess::spec_strip_escapes(v);
    assert((u + block) + v1 =~= u + (block + v1));
    lemma_strip_blocks_through(u, block + v1);
    lemma_strip_blocks_hash_block(w, v1);
    lemma_strip_blocks_through(u, v1);
}

/// Control-marker invisibility, `{#`...`#}` block form: the same statement
/// for the asymmetric block sigils.
pub proof fn lemma_brace_block_invisible(u: Seq<char>, w: Seq<char>, v: Seq<char>)
    requires
        marker_free(u),
        marker_free(w),
        newline_free(w),
    ensures
        spec_classify(u + seq!['{', '#'] + w + seq!['#', '}'] + v) == spec_classify(u + v),
{
    let block = seq!['{', '#'] + w + seq!['#', '}'];
    assert(backslash_free(u)) by {
        assert forall|j: int| 0 <= j < u.len() implies u[j] != '\\' by {}
    }
    assert(backslash_free(u + block)) by {
        assert forall|j: int| 0 <= j < (u + block).len() implies (u + block)[j] != '\\' by {
            if j < u.len() {
                assert((u + block)[j] == u[j]);
            } else {
                assert((u + block)[j] == block[j - u.len()]);
                if 2 <= j - u.len() < 2 + w.len() {
                    assert(block[j - u.len()] == w[j - u.len() - 2]);
                }
            }
        }
    }
    assert(u + seq!['{', '#'] + w + seq!['#', '}'] + v =~= (u + block) + v);
    lemma_strip_escapes_through(u + block, v);
    lemma_strip_escapes_through(u, v);
    let v1 = crate::preprocess::spec_strip_escapes(v);
    assert((u + block) + v1 =~= u + (block + v1));
    lemma_strip_blocks_through(u, block + v1);
    lemma_strip_blocks_brace_block(w, v1);
    lemma_strip_blocks_through(u, v1);
}

} // verus!
