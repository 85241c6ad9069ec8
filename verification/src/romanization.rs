//! The romanization signature set: for each Latin transliteration scheme, a
//! pattern believed to occur only (or primarily) in that scheme. The
//! classifier evaluates them in a fixed precedence order; each matcher here
//! only answers whether its pattern occurs anywhere in the text.
//!
//! Every pattern is a choice of single characters, adjacent pairs, or
//! three-character runs, so each spec predicate states "some position of the
//! text starts such an occurrence" and each matcher is a linear scan.

use vstd::prelude::*;

verus! {

// ---------------------------------------------------------------------------
// IAST / Kolkata: diacritic-marked Latin letters, precomposed or as a base
// letter followed by a combining mark.
// ---------------------------------------------------------------------------
/// A precomposed letter unique to the IAST family of encodings.
pub open spec fn spec_iast_char(c: char) -> bool {
    ||| c == '\u{0101}'  // a-macron
    ||| c == '\u{012B}'  // i-macron
    ||| c == '\u{016B}'  // u-macron
    ||| c == '\u{1E5B}'  // r-underdot
    ||| c == '\u{1E5D}'  // r-underdot-macron
    ||| c == '\u{1E37}'  // l-underdot
    ||| c == '\u{1E39}'  // l-underdot-macron
    ||| c == '\u{0113}'  // e-macron
    ||| c == '\u{014D}'  // o-macron
    ||| c == '\u{1E43}'  // m-underdot
    ||| c == '\u{1E25}'  // h-underdot
    ||| c == '\u{1E45}'  // n-overdot
    ||| c == '\u{00F1}'  // n-tilde
    ||| c == '\u{1E6D}'  // t-underdot
    ||| c == '\u{1E0D}'  // d-underdot
    ||| c == '\u{1E47}'  // n-underdot
    ||| c == '\u{015B}'  // s-acute
    ||| c == '\u{1E63}'  // s-underdot
    ||| c == '\u{1E3B}'  // l-underbar
    ||| c == '\u{0100}'  // A-macron
    ||| c == '\u{012A}'  // I-macron
    ||| c == '\u{016A}'  // U-macron
    ||| c == '\u{1E5A}'  // R-underdot
    ||| c == '\u{1E5C}'  // R-underdot-macron
    ||| c == '\u{1E36}'  // L-underdot
    ||| c == '\u{1E38}'  // L-underdot-macron
    ||| c == '\u{0112}'  // E-macron
    ||| c == '\u{014C}'  // O-macron
    ||| c == '\u{1E42}'  // M-underdot
    ||| c == '\u{1E24}'  // H-underdot
    ||| c == '\u{1E44}'  // N-overdot
    ||| c == '\u{00D1}'  // N-tilde
    ||| c == '\u{1E6C}'  // T-underdot
    ||| c == '\u{1E0C}'  // D-underdot
    ||| c == '\u{1E46}'  // N-underdot
    ||| c == '\u{015A}'  // S-acute
    ||| c == '\u{1E62}'  // S-underdot
    ||| c == '\u{1E3A}'  // L-underbar
}

/// A base letter followed by a combining mark, together unique to the IAST
/// family: vowel + macron, retroflex/nasal/sibilant consonant + underdot,
/// overdot, tilde, acute, or underbar.
pub open spec fn spec_iast_pair(a: char, b: char) -> bool {
    ||| ((a == 'a' || a == 'i' || a == 'u' || a == 'e' || a == 'o' || a == 'A' || a == 'I'
        || a == 'U' || a == 'E' || a == 'O') && b == '\u{0304}')
    ||| ((a == 'r' || a == 'l' || a == 'R' || a == 'L') && b == '\u{0323}')
    ||| ((a == 'm' || a == 'h' || a == 't' || a == 'd' || a == 'M' || a == 'H' || a == 'T'
        || a == 'D') && b == '\u{0323}')
    ||| ((a == 'n' || a == 'N') && (b == '\u{0307}' || b == '\u{0303}' || b == '\u{0323}'))
    ||| ((a == 's' || a == 'S') && (b == '\u{0301}' || b == '\u{0323}'))
    ||| ((a == 'l' || a == 'L') && b == '\u{0331}')
}

/// An IAST-family signature starts at position `i` of `s`.
pub open spec fn spec_iast_sig_at(s: Seq<char>, i: int) -> bool {
    ||| (0 <= i < s.len() && spec_iast_char(s[i]))
    ||| (0 <= i && i + 1 < s.len() && spec_iast_pair(s[i], s[i + 1]))
}

/// The text carries an IAST-family signature somewhere.
pub open spec fn spec_has_iast_sig(s: Seq<char>) -> bool {
    exists|i: int| spec_iast_sig_at(s, i)
}

// ---------------------------------------------------------------------------
// Kolkata: the two long-vowel markers that plain IAST does not use.
// ---------------------------------------------------------------------------
/// A precomposed long `e`/`o` with macron, the Kolkata-specific vowels.
pub open spec fn spec_kolkata_char(c: char) -> bool {
    c == '\u{0113}' || c == '\u{014D}' || c == '\u{0112}' || c == '\u{014C}'
}

/// A plain `e`/`o` followed by a combining macron.
pub open spec fn spec_kolkata_pair(a: char, b: char) -> bool {
    (a == 'e' || a == 'o' || a == 'E' || a == 'O') && b == '\u{0304}'
}

/// A Kolkata-specific long-vowel marker starts at position `i` of `s`.
pub open spec fn spec_kolkata_sig_at(s: Seq<char>, i: int) -> bool {
    ||| (0 <= i < s.len() && spec_kolkata_char(s[i]))
    ||| (0 <= i && i + 1 < s.len() && spec_kolkata_pair(s[i], s[i + 1]))
}

/// The text carries a Kolkata-specific long-vowel marker somewhere.
pub open spec fn spec_has_kolkata_sig(s: Seq<char>) -> bool {
    exists|i: int| spec_kolkata_sig_at(s, i)
}

// ---------------------------------------------------------------------------
// ITRANS-only: token patterns no other scheme considered so far shares.
// ---------------------------------------------------------------------------
/// A two-character token unique to ITRANS: `ee`, `oo`, `^i`, `^I`, `Li`,
/// `LI`, `~N`, `N^`, `Ch`, `JN`, `sh`, `Sh`, `.a`.
pub open spec fn spec_itrans_pair(a: char, b: char) -> bool {
    ||| (a == 'e' && b == 'e')
    ||| (a == 'o' && b == 'o')
    ||| (a == '^' && (b == 'i' || b == 'I'))
    ||| (a == 'L' && (b == 'i' || b == 'I'))
    ||| (a == '~' && b == 'N')
    ||| (a == 'N' && b == '^')
    ||| (a == 'C' && b == 'h')
    ||| (a == 'J' && b == 'N')
    ||| ((a == 's' || a == 'S') && b == 'h')
    ||| (a == '.' && b == 'a')
}

/// A three-character token unique to ITRANS: `RRi`, `RRI`, `chh`.
pub open spec fn spec_itrans_triple(a: char, b: char, c: char) -> bool {
    ||| (a == 'R' && b == 'R' && (c == 'i' || c == 'I'))
    ||| (a == 'c' && b == 'h' && c == 'h')
}

/// An ITRANS-only signature starts at position `i` of `s`.
pub open spec fn spec_itrans_sig_at(s: Seq<char>, i: int) -> bool {
    ||| (0 <= i && i + 1 < s.len() && spec_itrans_pair(s[i], s[i + 1]))
    ||| (0 <= i && i + 2 < s.len() && spec_itrans_triple(s[i], s[i + 1], s[i + 2]))
}

/// The text carries an ITRANS-only signature somewhere.
pub open spec fn spec_has_itrans_sig(s: Seq<char>) -> bool {
    exists|i: int| spec_itrans_sig_at(s, i)
}

// ---------------------------------------------------------------------------
// SLP1-only: single letters and digraphs SLP1 reserves for sounds the other
// schemes spell differently.
// ---------------------------------------------------------------------------
/// A single letter reserved by SLP1.
pub open spec fn spec_slp1_char(c: char) -> bool {
    ||| c == 'f'
    ||| c == 'F'
    ||| c == 'x'
    ||| c == 'X'
    ||| c == 'E'
    ||| c == 'O'
    ||| c == 'C'
    ||| c == 'Y'
    ||| c == 'w'
    ||| c == 'W'
    ||| c == 'q'
    ||| c == 'Q'
    ||| c == 'P'
    ||| c == 'B'
}

/// A digraph reserved by SLP1: `kz`, `Nk`, `Ng`, `tT`, `dD`, `Sc`, `Sn`,
/// vowel + `R`, `Gy`, `Gr`.
pub open spec fn spec_slp1_pair(a: char, b: char) -> bool {
    ||| (a == 'k' && b == 'z')
    ||| (a == 'N' && (b == 'k' || b == 'g'))
    ||| (a == 't' && b == 'T')
    ||| (a == 'd' && b == 'D')
    ||| (a == 'S' && (b == 'c' || b == 'n'))
    ||| ((a == 'a' || a == 'A' || a == 'i' || a == 'I' || a == 'u' || a == 'U' || a == 'e'
        || a == 'o') && b == 'R')
    ||| (a == 'G' && (b == 'y' || b == 'r'))
}

/// An SLP1-only signature starts at position `i` of `s`.
pub open spec fn spec_slp1_sig_at(s: Seq<char>, i: int) -> bool {
    ||| (0 <= i < s.len() && spec_slp1_char(s[i]))
    ||| (0 <= i && i + 1 < s.len() && spec_slp1_pair(s[i], s[i + 1]))
}

/// The text carries an SLP1-only signature somewhere.
pub open spec fn spec_has_slp1_sig(s: Seq<char>) -> bool {
    exists|i: int| spec_slp1_sig_at(s, i)
}

// ---------------------------------------------------------------------------
// Velthuis-only: dot-prefixed letters and two digraphs unique to Velthuis.
// ---------------------------------------------------------------------------
/// A two-character token unique to Velthuis: `.` before one of `mhnrltds`,
/// a double quote before `n`, or `~s`.
pub open spec fn spec_velthuis_pair(a: char, b: char) -> bool {
    ||| (a == '.' && (b == 'm' || b == 'h' || b == 'n' || b == 'r' || b == 'l' || b == 't'
        || b == 'd' || b == 's'))
    ||| (a == '"' && b == 'n')
    ||| (a == '~' && b == 's')
}

/// A Velthuis-only signature starts at position `i` of `s`.
pub open spec fn spec_velthuis_sig_at(s: Seq<char>, i: int) -> bool {
    0 <= i && i + 1 < s.len() && spec_velthuis_pair(s[i], s[i + 1])
}

/// The text carries a Velthuis-only signature somewhere.
pub open spec fn spec_has_velthuis_sig(s: Seq<char>) -> bool {
    exists|i: int| spec_velthuis_sig_at(s, i)
}

// ---------------------------------------------------------------------------
// ITRANS-or-Velthuis: markers the two schemes share.
// ---------------------------------------------------------------------------
/// A doubled plain vowel or `~n`, ambiguous between ITRANS and Velthuis.
pub open spec fn spec_itrans_velthuis_pair(a: char, b: char) -> bool {
    ||| (a == 'a' && b == 'a')
    ||| (a == 'i' && b == 'i')
    ||| (a == 'u' && b == 'u')
    ||| (a == '~' && b == 'n')
}

/// A shared ITRANS/Velthuis marker starts at position `i` of `s`.
pub open spec fn spec_itrans_velthuis_sig_at(s: Seq<char>, i: int) -> bool {
    0 <= i && i + 1 < s.len() && spec_itrans_velthuis_pair(s[i], s[i + 1])
}

/// The text carries a shared ITRANS/Velthuis marker somewhere.
pub open spec fn spec_has_itrans_velthuis_sig(s: Seq<char>) -> bool {
    exists|i: int| spec_itrans_velthuis_sig_at(s, i)
}

// ---------------------------------------------------------------------------
// Harvard-Kyoto: the plain Latin letter repertoire, the deliberate catch-all.
// ---------------------------------------------------------------------------
/// A plain letter from the Harvard-Kyoto repertoire.
pub open spec fn spec_hk_char(c: char) -> bool {
    ||| c == 'a'
    ||| c == 'A'
    ||| c == 'i'
    ||| c == 'I'
    ||| c == 'u'
    ||| c == 'U'
    ||| c == 'e'
    ||| c == 'o'
    ||| c == 'R'
    ||| c == 'M'
    ||| c == 'H'
    ||| c == 'k'
    ||| c == 'g'
    ||| c == 'G'
    ||| c == 'c'
    ||| c == 'j'
    ||| c == 'J'
    ||| c == 'T'
    ||| c == 'D'
    ||| c == 'N'
    ||| c == 't'
    ||| c == 'd'
    ||| c == 'n'
    ||| c == 'p'
    ||| c == 'b'
    ||| c == 'm'
    ||| c == 'y'
    ||| c == 'r'
    ||| c == 'l'
    ||| c == 'v'
    ||| c == 'z'
    ||| c == 'S'
    ||| c == 's'
    ||| c == 'h'
}

/// A Harvard-Kyoto letter stands at position `i` of `s`.
pub open spec fn spec_hk_sig_at(s: Seq<char>, i: int) -> bool {
    0 <= i < s.len() && spec_hk_char(s[i])
}

/// The text contains some Harvard-Kyoto letter.
pub open spec fn spec_has_hk_sig(s: Seq<char>) -> bool {
    exists|i: int| spec_hk_sig_at(s, i)
}

/// Mutual exclusivity of the scheme-specific tokens, by construction of the
/// patterns: no two-character token is claimed by more than one of the
/// ITRANS-only, SLP1-only and Velthuis-only rules. (Whole texts can still
/// satisfy several rules at once through different occurrences — one rule's
/// token beside a letter that another rule reserves — and the cascade's
/// precedence order resolves those.)
pub proof fn lemma_only_tokens_exclusive(a: char, b: char)
    ensures
        !(spec_itrans_pair(a, b) && spec_slp1_pair(a, b)),
        !(spec_itrans_pair(a, b) && spec_velthuis_pair(a, b)),
        !(spec_slp1_pair(a, b) && spec_velthuis_pair(a, b)),
{
}

// ---------------------------------------------------------------------------
// Executable matchers, one per rule, each a linear scan.
// ---------------------------------------------------------------------------
fn is_iast_char(c: char) -> (r: bool)
    ensures
        r == spec_iast_char(c),
{
    c == '\u{0101}' || c == '\u{012B}' || c == '\u{016B}' || c == '\u{1E5B}' || c == '\u{1E5D}'
        || c == '\u{1E37}' || c == '\u{1E39}' || c == '\u{0113}' || c == '\u{014D}'
        || c == '\u{1E43}' || c == '\u{1E25}' || c == '\u{1E45}' || c == '\u{00F1}'
        || c == '\u{1E6D}' || c == '\u{1E0D}' || c == '\u{1E47}' || c == '\u{015B}'
        || c == '\u{1E63}' || c == '\u{1E3B}' || c == '\u{0100}' || c == '\u{012A}'
        || c == '\u{016A}' || c == '\u{1E5A}' || c == '\u{1E5C}' || c == '\u{1E36}'
        || c == '\u{1E38}' || c == '\u{0112}' || c == '\u{014C}' || c == '\u{1E42}'
        || c == '\u{1E24}' || c == '\u{1E44}' || c == '\u{00D1}' || c == '\u{1E6C}'
        || c == '\u{1E0C}' || c == '\u{1E46}' || c == '\u{015A}' || c == '\u{1E62}'
        || c == '\u{1E3A}'
}

fn is_iast_pair(a: char, b: char) -> (r: bool)
    ensures
        r == spec_iast_pair(a, b),
{
    ((a == 'a' || a == 'i' || a == 'u' || a == 'e' || a == 'o' || a == 'A' || a == 'I' || a == 'U'
        || a == 'E' || a == 'O') && b == '\u{0304}') || ((a == 'r' || a == 'l' || a == 'R'
        || a == 'L') && b == '\u{0323}') || ((a == 'm' || a == 'h' || a == 't' || a == 'd'
        || a == 'M' || a == 'H' || a == 'T' || a == 'D') && b == '\u{0323}') || ((a == 'n'
        || a == 'N') && (b == '\u{0307}' || b == '\u{0303}' || b == '\u{0323}')) || ((a == 's'
        || a == 'S') && (b == '\u{0301}' || b == '\u{0323}')) || ((a == 'l' || a == 'L')
        && b == '\u{0331}')
}

/// Whether the text carries a signature of the IAST family (IAST itself or
/// its Kolkata variant).
pub fn has_iast_signature(s: &Vec<char>) -> (r: bool)
    ensures
        r == spec_has_iast_sig(s@),
{
    let n = s.len();
    let mut i: usize = 0;
    while i < n
        invariant
            i <= n,
            n == s@.len(),
            forall|j: int| j < i ==> !spec_iast_sig_at(s@, j),
        decreases n - i,
    {
        if is_iast_char(s[i]) || (i + 1 < n && is_iast_pair(s[i], s[i + 1])) {
            proof {
                assert(spec_iast_sig_at(s@, i as int));
            }
            return true;
        }
        i += 1;
    }
    false
}

fn is_kolkata_char(c: char) -> (r: bool)
    ensures
        r == spec_kolkata_char(c),
{
    c == '\u{0113}' || c == '\u{014D}' || c == '\u{0112}' || c == '\u{014C}'
}

fn is_kolkata_pair(a: char, b: char) -> (r: bool)
    ensures
        r == spec_kolkata_pair(a, b),
{
    (a == 'e' || a == 'o' || a == 'E' || a == 'O') && b == '\u{0304}'
}

/// Whether the text carries one of the two Kolkata-specific long-vowel
/// markers.
pub fn has_kolkata_signature(s: &Vec<char>) -> (r: bool)
    ensures
        r == spec_has_kolkata_sig(s@),
{
    let n = s.len();
    let mut i: usize = 0;
    while i < n
        invariant
            i <= n,
            n == s@.len(),
            forall|j: int| j < i ==> !spec_kolkata_sig_at(s@, j),
        decreases n - i,
    {
        if is_kolkata_char(s[i]) || (i + 1 < n && is_kolkata_pair(s[i], s[i + 1])) {
            proof {
                assert(spec_kolkata_sig_at(s@, i as int));
            }
            return true;
        }
        i += 1;
    }
    false
}

fn is_itrans_pair(a: char, b: char) -> (r: bool)
    ensures
        r == spec_itrans_pair(a, b),
{
    (a == 'e' && b == 'e') || (a == 'o' && b == 'o') || (a == '^' && (b == 'i' || b == 'I')) || (a
        == 'L' && (b == 'i' || b == 'I')) || (a == '~' && b == 'N') || (a == 'N' && b == '^') || (a
        == 'C' && b == 'h') || (a == 'J' && b == 'N') || ((a == 's' || a == 'S') && b == 'h') || (a
        == '.' && b == 'a')
}

fn is_itrans_triple(a: char, b: char, c: char) -> (r: bool)
    ensures
        r == spec_itrans_triple(a, b, c),
{
    (a == 'R' && b == 'R' && (c == 'i' || c == 'I')) || (a == 'c' && b == 'h' && c == 'h')
}

/// Whether the text carries a token unique to ITRANS.
pub fn has_itrans_only_signature(s: &Vec<char>) -> (r: bool)
    ensures
        r == spec_has_itrans_sig(s@),
{
    let n = s.len();
    let mut i: usize = 0;
    while i < n
        invariant
            i <= n,
            n == s@.len(),
            forall|j: int| j < i ==> !spec_itrans_sig_at(s@, j),
        decreases n - i,
    {
        let pair_hit = i + 1 < n && is_itrans_pair(s[i], s[i + 1]);
        let triple_hit = n - i > 2 && is_itrans_triple(s[i], s[i + 1], s[i + 2]);
        if pair_hit || triple_hit {
            proof {
                assert(spec_itrans_sig_at(s@, i as int));
            }
            return true;
        }
        i += 1;
    }
    false
}

fn is_slp1_char(c: char) -> (r: bool)
    ensures
        r == spec_slp1_char(c),
{
    c == 'f' || c == 'F' || c == 'x' || c == 'X' || c == 'E' || c == 'O' || c == 'C' || c == 'Y'
        || c == 'w' || c == 'W' || c == 'q' || c == 'Q' || c == 'P' || c == 'B'
}

fn is_slp1_pair(a: char, b: char) -> (r: bool)
    ensures
        r == spec_slp1_pair(a, b),
{
    (a == 'k' && b == 'z') || (a == 'N' && (b == 'k' || b == 'g')) || (a == 't' && b == 'T') || (a
        == 'd' && b == 'D') || (a == 'S' && (b == 'c' || b == 'n')) || ((a == 'a' || a == 'A' || a
        == 'i' || a == 'I' || a == 'u' || a == 'U' || a == 'e' || a == 'o') && b == 'R') || (a
        == 'G' && (b == 'y' || b == 'r'))
}

/// Whether the text carries a letter or digraph reserved by SLP1.
pub fn has_slp1_signature(s: &Vec<char>) -> (r: bool)
    ensures
        r == spec_has_slp1_sig(s@),
{
    let n = s.len();
    let mut i: usize = 0;
    while i < n
        invariant
            i <= n,
            n == s@.len(),
            forall|j: int| j < i ==> !spec_slp1_sig_at(s@, j),
        decreases n - i,
    {
        if is_slp1_char(s[i]) || (i + 1 < n && is_slp1_pair(s[i], s[i + 1])) {
            proof {
                assert(spec_slp1_sig_at(s@, i as int));
            }
            return true;
        }
        i += 1;
    }
    false
}

fn is_velthuis_pair(a: char, b: char) -> (r: bool)
    ensures
        r == spec_velthuis_pair(a, b),
{
    (a == '.' && (b == 'm' || b == 'h' || b == 'n' || b == 'r' || b == 'l' || b == 't' || b == 'd'
        || b == 's')) || (a == '"' && b == 'n') || (a == '~' && b == 's')
}

/// Whether the text carries a token unique to Velthuis.
pub fn has_velthuis_only_signature(s: &Vec<char>) -> (r: bool)
    ensures
        r == spec_has_velthuis_sig(s@),
{
    let n = s.len();
    let mut i: usize = 0;
    while i < n
        invariant
            i <= n,
            n == s@.len(),
            forall|j: int| j < i ==> !spec_velthuis_sig_at(s@, j),
        decreases n - i,
    {
        if i + 1 < n && is_velthuis_pair(s[i], s[i + 1]) {
            proof {
                assert(spec_velthuis_sig_at(s@, i as int));
            }
            return true;
        }
        i += 1;
    }
    false
}

fn is_itrans_velthuis_pair(a: char, b: char) -> (r: bool)
    ensures
        r == spec_itrans_velthuis_pair(a, b),
{
    (a == 'a' && b == 'a') || (a == 'i' && b == 'i') || (a == 'u' && b == 'u') || (a == '~' && b
        == 'n')
}

/// Whether the text carries a marker shared by ITRANS and Velthuis.
pub fn has_itrans_or_velthuis_signature(s: &Vec<char>) -> (r: bool)
    ensures
        r == spec_has_itrans_velthuis_sig(s@),
{
    let n = s.len();
    let mut i: usize = 0;
    while i < n
        invariant
            i <= n,
            n == s@.len(),
            forall|j: int| j < i ==> !spec_itrans_velthuis_sig_at(s@, j),
        decreases n - i,
    {
        if i + 1 < n && is_itrans_velthuis_pair(s[i], s[i + 1]) {
            proof {
                assert(spec_itrans_velthuis_sig_at(s@, i as int));
            }
            return true;
        }
        i += 1;
    }
    false
}

fn is_hk_char(c: char) -> (r: bool)
    ensures
        r == spec_hk_char(c),
{
    c == 'a' || c == 'A' || c == 'i' || c == 'I' || c == 'u' || c == 'U' || c == 'e' || c == 'o'
        || c == 'R' || c == 'M' || c == 'H' || c == 'k' || c == 'g' || c == 'G' || c == 'c' || c
        == 'j' || c == 'J' || c == 'T' || c == 'D' || c == 'N' || c == 't' || c == 'd' || c == 'n'
        || c == 'p' || c == 'b' || c == 'm' || c == 'y' || c == 'r' || c == 'l' || c == 'v' || c
        == 'z' || c == 'S' || c == 's' || c == 'h'
}

/// Whether the text contains any letter from the Harvard-Kyoto repertoire.
pub fn has_harvard_kyoto_signature(s: &Vec<char>) -> (r: bool)
    ensures
        r == spec_has_hk_sig(s@),
{
    let n = s.len();
    let mut i: usize = 0;
    while i < n
        invariant
            i <= n,
            n == s@.len(),
            forall|j: int| j < i ==> !spec_hk_sig_at(s@, j),
        decreases n - i,
    {
        if is_hk_char(s[i]) {
            proof {
                assert(spec_hk_sig_at(s@, i as int));
            }
            return true;
        }
        i += 1;
    }
    false
}

} // verus!
