//! The preprocessor: strips scheme-marking control syntax from the input so
//! that embedded meta-markup contributes no detection signal.
//!
//! Two syntactic forms are removed, each in one left-to-right pass:
//! - an escaped form: a backslash immediately followed by one of the three
//!   control sigils `{#`, `##`, `#}` (the escape lets a literal sigil appear
//!   in tagged text without acting as markup);
//! - a block form: the shortest span `##`...`##` or `{#`...`#}` whose content
//!   stays on one line.
//!
//! Escaped forms go first, so a delimiter that was itself escaped is never
//! treated as a live delimiter. A block must close before a line break; an
//! opening sigil with no closing sigil is kept as ordinary text, as is each
//! pass's leftover once no further form starts at or after it.

use vstd::prelude::*;

verus! {

/// The two characters form one of the three control sigils `{#`, `##`, `#}`.
pub open spec fn spec_escape_pair(a: char, b: char) -> bool {
    (a == '{' && b == '#') || (a == '#' && b == '#') || (a == '#' && b == '}')
}

/// The text after the escaped-marker pass: every backslash immediately
/// followed by a control sigil is deleted together with the sigil, scanning
/// left to right without overlap.
pub open spec fn spec_strip_escapes(s: Seq<char>) -> Seq<char>
    decreases s.len(),
{
    if s.len() == 0 {
        Seq::empty()
    } else if s.len() >= 3 && s[0] == '\\' && spec_escape_pair(s[1], s[2]) {
        spec_strip_escapes(s.subrange(3, s.len() as int))
    } else {
        seq![s[0]] + spec_strip_escapes(s.subrange(1, s.len() as int))
    }
}

/// The position of the first closing pair `#c2` at or after `i`, or `-1`
/// when a line break or the end of the text comes first. A closing pair
/// found at `j` always satisfies `i <= j` and `j + 1 < s.len()`.
pub open spec fn spec_close_from(s: Seq<char>, i: int, c2: char) -> int
    decreases s.len() - i,
{
    if i < 0 || i >= s.len() {
        -1
    } else if i + 1 < s.len() && s[i] == '#' && s[i + 1] == c2 {
        i
    } else if s[i] == '\n' {
        -1
    } else {
        spec_close_from(s, i + 1, c2)
    }
}

/// The text after the control-block pass: at each position, scanning left to
/// right, the shortest block `##`...`##` or `{#`...`#}` starting there is
/// deleted in full; where no block starts, the character is kept.
pub open spec fn spec_strip_blocks(s: Seq<char>) -> Seq<char>
    decreases s.len(),
{
    if s.len() == 0 {
        Seq::empty()
    } else if s.len() >= 2 && s[0] == '#' && s[1] == '#' && spec_close_from(s, 2, '#') >= 0
        && spec_close_from(s, 2, '#') + 1 < s.len() {
        spec_strip_blocks(s.subrange(spec_close_from(s, 2, '#') + 2, s.len() as int))
    } else if s.len() >= 2 && s[0] == '{' && s[1] == '#' && spec_close_from(s, 2, '}') >= 0
        && spec_close_from(s, 2, '}') + 1 < s.len() {
        spec_strip_blocks(s.subrange(spec_close_from(s, 2, '}') + 2, s.len() as int))
    } else {
        seq![s[0]] + spec_strip_blocks(s.subrange(1, s.len() as int))
    }
}

/// The cleaned text handed to the classifier: escaped markers stripped
/// first, control blocks second.
pub open spec fn spec_preprocess(s: Seq<char>) -> Seq<char> {
    spec_strip_blocks(spec_strip_escapes(s))
}

/// No escaped form can start inside `t`.
pub open spec fn backslash_free(t: Seq<char>) -> bool {
    forall|i: int| 0 <= i < t.len() ==> t[i] != '\\'
}

/// No marker form at all can start inside `t`: no escape, no block opener,
/// and no block closer.
pub open spec fn marker_free(t: Seq<char>) -> bool {
    forall|i: int| 0 <= i < t.len() ==> (t[i] != '#' && t[i] != '{' && t[i] != '\\')
}

/// `t` stays on one line, so a block may span it.
pub open spec fn newline_free(t: Seq<char>) -> bool {
    forall|i: int| 0 <= i < t.len() ==> t[i] != '\n'
}

/// The escaped-marker pass walks unchanged through a backslash-free prefix.
pub proof fn lemma_strip_escapes_through(u: Seq<char>, v: Seq<char>)
    requires
        backslash_free(u),
    ensures
        spec_strip_escapes(u + v) == u + spec_strip_escapes(v),
    decreases u.len(),
{
    if u.len() == 0 {
        assert(u + v =~= v);
        assert(u + spec_strip_escapes(v) =~= spec_strip_escapes(v));
    } else {
        let s = u + v;
        let u1 = u.subrange(1, u.len() as int);
        assert(s[0] == u[0] && s[0] != '\\');
        assert(s.subrange(1, s.len() as int) =~= u1 + v);
        assert(backslash_free(u1));
        lemma_strip_escapes_through(u1, v);
        assert(seq![s[0]] + (u1 + spec_strip_escapes(v)) =~= u + spec_strip_escapes(v));
    }
}

/// The escaped-marker pass deletes an escaped sigil at the front in full.
pub proof fn lemma_strip_escapes_marker(a: char, b: char, v: Seq<char>)
    requires
        spec_escape_pair(a, b),
    ensures
        spec_strip_escapes(seq!['\\', a, b] + v) == spec_strip_escapes(v),
{
    let s = seq!['\\', a, b] + v;
    assert(s.len() >= 3 && s[0] == '\\' && s[1] == a && s[2] == b);
    assert(s.subrange(3, s.len() as int) =~= v);
}

/// The escaped-marker pass is the identity on backslash-free text.
pub proof fn lemma_strip_escapes_id(t: Seq<char>)
    requires
        backslash_free(t),
    ensures
        spec_strip_escapes(t) == t,
{
    lemma_strip_escapes_through(t, Seq::empty());
    assert(t + Seq::<char>::empty() =~= t);
    assert(t + spec_strip_escapes(Seq::<char>::empty()) =~= t);
}

/// The block pass walks unchanged through a prefix in which no block can
/// open and no escape hides.
pub proof fn lemma_strip_blocks_through(u: Seq<char>, v: Seq<char>)
    requires
        marker_free(u),
    ensures
        spec_strip_blocks(u + v) == u + spec_strip_blocks(v),
    decreases u.len(),
{
    if u.len() == 0 {
        assert(u + v =~= v);
        assert(u + spec_strip_blocks(v) =~= spec_strip_blocks(v));
    } else {
        let s = u + v;
        let u1 = u.subrange(1, u.len() as int);
        assert(s[0] == u[0] && s[0] != '#' && s[0] != '{');
        assert(s.subrange(1, s.len() as int) =~= u1 + v);
        assert(marker_free(u1));
        lemma_strip_blocks_through(u1, v);
        assert(seq![s[0]] + (u1 + spec_strip_blocks(v)) =~= u + spec_strip_blocks(v));
    }
}

/// The block pass is the identity on marker-free text.
pub proof fn lemma_strip_blocks_id(t: Seq<char>)
    requires
        marker_free(t),
    ensures
        spec_strip_blocks(t) == t,
{
    lemma_strip_blocks_through(t, Seq::empty());
    assert(t + Seq::<char>::empty() =~= t);
    assert(t + spec_strip_blocks(Seq::<char>::empty()) =~= t);
}

/// The whole preprocessor is the identity on marker-free text.
pub proof fn lemma_preprocess_id(t: Seq<char>)
    requires
        marker_free(t),
    ensures
        spec_preprocess(t) == t,
{
    lemma_strip_escapes_id(t);
    lemma_strip_blocks_id(t);
}

/// A closing-pair scan lands on the first closing pair, provided nothing
/// before it starts a closer or breaks the line.
pub proof fn lemma_close_from_found(s: Seq<char>, i: int, k: int, c2: char)
    requires
        0 <= i <= k,
        k + 1 < s.len(),
        s[k] == '#',
        s[k + 1] == c2,
        forall|j: int| i <= j < k ==> (s[j] != '#' && s[j] != '\n'),
    ensures
        spec_close_from(s, i, c2) == k,
    decreases k - i,
{
    if i < k {
        lemma_close_from_found(s, i + 1, k, c2);
    }
}

/// A closing-pair scan over a shifted window: searching the suffix of `s`
/// that starts at `i` finds the same closer as searching `s` itself, with
/// all positions shifted by `i`.
pub proof fn lemma_close_from_shift(s: Seq<char>, i: int, k: int, c2: char)
    requires
        0 <= i,
        0 <= k,
        i + k <= s.len(),
    ensures
        spec_close_from(s.subrange(i, s.len() as int), k, c2) == if spec_close_from(
            s,
            i + k,
            c2,
        ) >= 0 {
            spec_close_from(s, i + k, c2) - i
        } else {
            -1
        },
    decreases s.len() - i - k,
{
    let rest = s.subrange(i, s.len() as int);
    if k >= rest.len() {
    } else {
        assert(rest[k] == s[i + k]);
        if k + 1 < rest.len() {
            assert(rest[k + 1] == s[i + k + 1]);
        }
        if k + 1 < rest.len() && rest[k] == '#' && rest[k + 1] == c2 {
        } else if rest[k] == '\n' {
        } else {
            lemma_close_from_shift(s, i, k + 1, c2);
        }
    }
}

/// The block pass deletes a whole `##`...`##` block at the front, whatever
/// follows it, provided the block's content opens no closer of its own and
/// stays on one line.
pub proof fn lemma_strip_blocks_hash_block(w: Seq<char>, v: Seq<char>)
    requires
        marker_free(w),
        newline_free(w),
    ensures
        spec_strip_blocks(seq!['#', '#'] + w + seq!['#', '#'] + v) == spec_strip_blocks(v),
{
    let s = seq!['#', '#'] + w + seq!['#', '#'] + v;
    let k = 2 + w.len() as int;
    assert(s.len() == w.len() + v.len() + 4);
    assert(s[0] == '#' && s[1] == '#');
    assert(s[k] == '#' && s[k + 1] == '#');
    assert forall|j: int| 2 <= j < k implies (s[j] != '#' && s[j] != '\n') by {
        assert(s[j] == w[j - 2]);
    }
    lemma_close_from_found(s, 2, k, '#');
    assert(s.subrange(k + 2, s.len() as int) =~= v);
}

/// The block pass deletes a whole `{#`...`#}` block at the front, under the
/// same conditions on the content.
pub proof fn lemma_strip_blocks_brace_block(w: Seq<char>, v: Seq<char>)
    requires
        marker_free(w),
        newline_free(w),
    ensures
        spec_strip_blocks(seq!['{', '#'] + w + seq!['#', '}'] + v) == spec_strip_blocks(v),
{
    let s = seq!['{', '#'] + w + seq!['#', '}'] + v;
    let k = 2 + w.len() as int;
    assert(s.len() == w.len() + v.len() + 4);
    assert(s[0] == '{' && s[1] == '#');
    assert(s[k] == '#' && s[k + 1] == '}');
    assert forall|j: int| 2 <= j < k implies (s[j] != '#' && s[j] != '\n') by {
        assert(s[j] == w[j - 2]);
    }
    lemma_close_from_found(s, 2, k, '}');
    assert(s.subrange(k + 2, s.len() as int) =~= v);
}

/// The two characters form one of the three control sigils.
fn is_escape_pair(a: char, b: char) -> (r: bool)
    ensures
        r == spec_escape_pair(a, b),
{
    (a == '{' && b == '#') || (a == '#' && b == '#') || (a == '#' && b == '}')
}

/// Removes every escaped control sigil in one left-to-right pass.
pub fn strip_escaped_markers(s: &Vec<char>) -> (r: Vec<char>)
    ensures
        r@ == spec_strip_escapes(s@),
{
    let n = s.len();
    let mut r: Vec<char> = Vec::new();
    let mut i: usize = 0;
    proof {
        assert(s@.subrange(0, n as int) =~= s@);
        assert(r@ + spec_strip_escapes(s@) =~= spec_strip_escapes(s@));
    }
    while i < n
        invariant
            i <= n,
            n == s@.len(),
            spec_strip_escapes(s@) == r@ + spec_strip_escapes(s@.subrange(i as int, n as int)),
        decreases n - i,
    {
        let ghost rest = s@.subrange(i as int, n as int);
        if n - i > 2 && s[i] == '\\' && is_escape_pair(s[i + 1], s[i + 2]) {
            proof {
                assert(rest.len() >= 3);
                assert(rest[0] == '\\' && spec_escape_pair(rest[1], rest[2]));
                assert(rest.subrange(3, rest.len() as int) =~= s@.subrange(
                    i as int + 3,
                    n as int,
                ));
            }
            i += 3;
        } else {
            let c = s[i];
            proof {
                assert(rest[0] == s@[i as int]);
                if rest.len() >= 3 {
                    assert(rest[1] == s@[i as int + 1] && rest[2] == s@[i as int + 2]);
                }
                assert(rest.subrange(1, rest.len() as int) =~= s@.subrange(
                    i as int + 1,
                    n as int,
                ));
                assert(r@ + spec_strip_escapes(rest) =~= (r@ + seq![c]) + spec_strip_escapes(
                    s@.subrange(i as int + 1, n as int),
                ));
            }
            r.push(c);
            i += 1;
        }
    }
    proof {
        assert(s@.subrange(n as int, n as int) =~= Seq::<char>::empty());
        assert(r@ + Seq::<char>::empty() =~= r@);
    }
    r
}

/// Scans for the first closing pair `#c2` at or after `start`, giving up at
/// a line break or at the end of the text.
fn find_close(s: &Vec<char>, start: usize, c2: char) -> (r: Option<usize>)
    requires
        start <= s@.len(),
    ensures
        match r {
            Some(j) => spec_close_from(s@, start as int, c2) == j as int && start <= j && j + 1
                < s@.len() && s@[j as int] == '#' && s@[j as int + 1] == c2,
            None => spec_close_from(s@, start as int, c2) == -1,
        },
{
    let n = s.len();
    let mut j: usize = start;
    while j < n
        invariant
            start <= j <= n,
            n == s@.len(),
            spec_close_from(s@, start as int, c2) == spec_close_from(s@, j as int, c2),
        decreases n - j,
    {
        if j + 1 < n && s[j] == '#' && s[j + 1] == c2 {
            return Some(j);
        }
        if s[j] == '\n' {
            return None;
        }
        j += 1;
    }
    None
}

/// Removes every control block in one left-to-right pass, each block the
/// shortest one from its opening sigil.
pub fn strip_control_blocks(s: &Vec<char>) -> (r: Vec<char>)
    ensures
        r@ == spec_strip_blocks(s@),
{
    let n = s.len();
    let mut r: Vec<char> = Vec::new();
    let mut i: usize = 0;
    proof {
        assert(s@.subrange(0, n as int) =~= s@);
        assert(r@ + spec_strip_blocks(s@) =~= spec_strip_blocks(s@));
    }
    while i < n
        invariant
            i <= n,
            n == s@.len(),
            spec_strip_blocks(s@) == r@ + spec_strip_blocks(s@.subrange(i as int, n as int)),
        decreases n - i,
    {
        let ghost rest = s@.subrange(i as int, n as int);
        let mut handled = false;
        if i + 1 < n && s[i] == '#' && s[i + 1] == '#' {
            if let Some(j) = find_close(s, i + 2, '#') {
                proof {
                    lemma_close_from_shift(s@, i as int, 2, '#');
                    assert(rest.len() >= 2 && rest[0] == '#' && rest[1] == '#');
                    assert(spec_close_from(rest, 2, '#') == j as int - i);
                    assert(rest.subrange(j as int - i + 2, rest.len() as int) =~= s@.subrange(
                        j as int + 2,
                        n as int,
                    ));
                }
                i = j + 2;
                handled = true;
            } else {
                proof {
                    lemma_close_from_shift(s@, i as int, 2, '#');
                }
            }
        } else if i + 1 < n && s[i] == '{' && s[i + 1] == '#' {
            if let Some(j) = find_close(s, i + 2, '}') {
                proof {
                    lemma_close_from_shift(s@, i as int, 2, '}');
                    assert(rest.len() >= 2 && rest[0] == '{' && rest[1] == '#');
                    assert(spec_close_from(rest, 2, '}') == j as int - i);
                    assert(rest.subrange(j as int - i + 2, rest.len() as int) =~= s@.subrange(
                        j as int + 2,
                        n as int,
                    ));
                }
                i = j + 2;
                handled = true;
            } else {
                proof {
                    lemma_close_from_shift(s@, i as int, 2, '}');
                }
            }
        }
        if !handled {
            let c = s[i];
            proof {
                assert(rest[0] == s@[i as int]);
                if rest.len() >= 2 {
                    assert(rest[1] == s@[i as int + 1]);
                }
                assert(rest.subrange(1, rest.len() as int) =~= s@.subrange(
                    i as int + 1,
                    n as int,
                ));
                assert(r@ + spec_strip_blocks(rest) =~= (r@ + seq![c]) + spec_strip_blocks(
                    s@.subrange(i as int + 1, n as int),
                ));
            }
            r.push(c);
            i += 1;
        }
    }
    proof {
        assert(s@.subrange(n as int, n as int) =~= Seq::<char>::empty());
        assert(r@ + Seq::<char>::empty() =~= r@);
    }
    r
}

/// Strips both control-marker forms: escaped sigils first, blocks second.
pub fn preprocess(s: &Vec<char>) -> (r: Vec<char>)
    ensures
        r@ == spec_preprocess(s@),
{
    let e = strip_escaped_markers(s);
    strip_control_blocks(&e)
}

} // verus!
