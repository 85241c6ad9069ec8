//! Brahmic-script detection: a scan for the first codepoint in the combined
//! Brahmic block range `[U+0900, U+0D7F]`, and the fixed table that maps each
//! script's sub-range to its scheme identifier.
//!
//! Presence of even one native-script character is decisive, so this check
//! takes absolute precedence over every romanization heuristic.

use vstd::prelude::*;
use crate::scheme::Scheme;

verus! {

/// The codepoint lies in the combined Brahmic block range.
pub open spec fn spec_brahmic_char(c: char) -> bool {
    0x0900 <= c as u32 <= 0x0D7F
}

/// The codepoint of the first Brahmic character at or after position `i`,
/// or `0` when none follows. `0` never collides with a hit, since the
/// Brahmic range does not contain it.
pub open spec fn spec_first_brahmic_from(s: Seq<char>, i: int) -> int
    decreases s.len() - i,
{
    if i < 0 || i >= s.len() {
        0
    } else if spec_brahmic_char(s[i]) {
        s[i] as u32 as int
    } else {
        spec_first_brahmic_from(s, i + 1)
    }
}

/// The codepoint of the first Brahmic character of `s`, or `0` when `s`
/// contains none.
pub open spec fn spec_first_brahmic(s: Seq<char>) -> int {
    spec_first_brahmic_from(s, 0)
}

/// The fixed range table: nine contiguous sub-ranges that exactly tile
/// `[U+0900, U+0D7F]`, one per native script; anything outside the combined
/// range maps to `Unknown`.
pub open spec fn spec_brahmic_scheme(cp: int) -> Scheme {
    if 0x0900 <= cp <= 0x097F {
        Scheme::Devanagari
    } else if 0x0980 <= cp <= 0x09FF {
        Scheme::Bengali
    } else if 0x0A00 <= cp <= 0x0A7F {
        Scheme::Gurmukhi
    } else if 0x0A80 <= cp <= 0x0AFF {
        Scheme::Gujarati
    } else if 0x0B00 <= cp <= 0x0B7F {
        Scheme::Oriya
    } else if 0x0B80 <= cp <= 0x0BFF {
        Scheme::Tamil
    } else if 0x0C00 <= cp <= 0x0C7F {
        Scheme::Telugu
    } else if 0x0C80 <= cp <= 0x0CFF {
        Scheme::Kannada
    } else if 0x0D00 <= cp <= 0x0D7F {
        Scheme::Malayalam
    } else {
        Scheme::Unknown
    }
}

/// The first Brahmic codepoint seen from position `k` is the one at the
/// first Brahmic position `i`.
pub proof fn lemma_first_brahmic_from_witness(s: Seq<char>, k: int, i: int)
    requires
        0 <= k <= i < s.len(),
        spec_brahmic_char(s[i]),
        forall|j: int| k <= j < i ==> !spec_brahmic_char(s[j]),
    ensures
        spec_first_brahmic_from(s, k) == s[i] as u32 as int,
    decreases i - k,
{
    if k < i {
        lemma_first_brahmic_from_witness(s, k + 1, i);
    }
}

/// Scans the characters of a text vector in input order and returns the
/// codepoint value of the first one in the Brahmic range, or `0` when none
/// is found.
pub fn first_brahmic_in(s: &Vec<char>) -> (r: usize)
    ensures
        r as int == spec_first_brahmic(s@),
{
    let n = s.len();
    let mut i: usize = 0;
    while i < n
        invariant
            i <= n,
            n == s@.len(),
            spec_first_brahmic(s@) == spec_first_brahmic_from(s@, i as int),
        decreases n - i,
    {
        let cp = s[i] as u32;
        if 0x0900 <= cp && cp <= 0x0D7F {
            return cp as usize;
        }
        i += 1;
    }
    0
}

/// Scans a string's characters in input order and returns the codepoint
/// value of the first one in the Brahmic range `[U+0900, U+0D7F]`, or `0`
/// when none is found.
pub fn first_brahmic_char(s: &str) -> (r: usize)
    ensures
        r as int == spec_first_brahmic(s@),
{
    let n = s.unicode_len();
    let mut i: usize = 0;
    while i < n
        invariant
            i <= n,
            n == s@.len(),
            spec_first_brahmic(s@) == spec_first_brahmic_from(s@, i as int),
        decreases n - i,
    {
        let cp = s.get_char(i) as u32;
        if 0x0900 <= cp && cp <= 0x0D7F {
            return cp as usize;
        }
        i += 1;
    }
    0
}

/// Looks a codepoint up in the range table and returns the native-script
/// identifier of the sub-range it falls in, or `Unknown` when it lies
/// outside the combined Brahmic range.
pub fn brahmic_scheme_of(cp: usize) -> (r: Scheme)
    ensures
        r == spec_brahmic_scheme(cp as int),
{
    if 0x0900 <= cp && cp <= 0x097F {
        Scheme::Devanagari
    } else if 0x0980 <= cp && cp <= 0x09FF {
        Scheme::Bengali
    } else if 0x0A00 <= cp && cp <= 0x0A7F {
        Scheme::Gurmukhi
    } else if 0x0A80 <= cp && cp <= 0x0AFF {
        Scheme::Gujarati
    } else if 0x0B00 <= cp && cp <= 0x0B7F {
        Scheme::Oriya
    } else if 0x0B80 <= cp && cp <= 0x0BFF {
        Scheme::Tamil
    } else if 0x0C00 <= cp && cp <= 0x0C7F {
        Scheme::Telugu
    } else if 0x0C80 <= cp && cp <= 0x0CFF {
        Scheme::Kannada
    } else if 0x0D00 <= cp && cp <= 0x0D7F {
        Scheme::Malayalam
    } else {
        Scheme::Unknown
    }
}

} // verus!
