//! The closed set of classification outcomes: nine native Brahmic scripts,
//! six romanization schemes, and `Unknown` for text that matches nothing.

use vstd::prelude::*;

verus! {

/// One scheme identifier per classification outcome. The numeric codes
/// assigned by [`scheme_code`] order the variants only for indexing by
/// callers; the order carries no linguistic meaning.
#[derive(Clone, Copy, PartialEq, Eq, Structural, Debug)]
pub enum Scheme {
    Unknown,
    Devanagari,
    Bengali,
    Gurmukhi,
    Gujarati,
    Oriya,
    Tamil,
    Telugu,
    Kannada,
    Malayalam,
    Iast,
    Kolkata,
    Itrans,
    Slp1,
    Velthuis,
    HarvardKyoto,
}

/// The numeric code of each scheme identifier, `0` for `Unknown` through
/// `15` for `HarvardKyoto`.
pub open spec fn scheme_code(s: Scheme) -> int {
    match s {
        Scheme::Unknown => 0,
        Scheme::Devanagari => 1,
        Scheme::Bengali => 2,
        Scheme::Gurmukhi => 3,
        Scheme::Gujarati => 4,
        Scheme::Oriya => 5,
        Scheme::Tamil => 6,
        Scheme::Telugu => 7,
        Scheme::Kannada => 8,
        Scheme::Malayalam => 9,
        Scheme::Iast => 10,
        Scheme::Kolkata => 11,
        Scheme::Itrans => 12,
        Scheme::Slp1 => 13,
        Scheme::Velthuis => 14,
        Scheme::HarvardKyoto => 15,
    }
}

/// Every scheme identifier has a code between 0 and 15: the sixteen codes
/// exactly cover the closed set of outcomes.
pub proof fn lemma_scheme_code_range(s: Scheme)
    ensures
        0 <= scheme_code(s) <= 15,
{
}

impl Scheme {
    /// The numeric code of this identifier.
    pub fn code(&self) -> (c: usize)
        ensures
            c as int == scheme_code(*self),
    {
        match self {
            Scheme::Unknown => 0,
            Scheme::Devanagari => 1,
            Scheme::Bengali => 2,
            Scheme::Gurmukhi => 3,
            Scheme::Gujarati => 4,
            Scheme::Oriya => 5,
            Scheme::Tamil => 6,
            Scheme::Telugu => 7,
            Scheme::Kannada => 8,
            Scheme::Malayalam => 9,
            Scheme::Iast => 10,
            Scheme::Kolkata => 11,
            Scheme::Itrans => 12,
            Scheme::Slp1 => 13,
            Scheme::Velthuis => 14,
            Scheme::HarvardKyoto => 15,
        }
    }
}

} // verus!
