//! Morse patterns: canonical `0`/`1` sequences and their rendering.

use vstd::prelude::*;

use crate::options::Options;

verus! {

/// The canonical form of a table pattern: every character of the source
/// string is read as a binary symbol (`1` a dash, anything else a dot),
/// and an empty source stands for a single dot, so that a canonical
/// pattern is never empty.
pub open spec fn canonical_pattern(s: Seq<char>) -> Seq<char> {
    if s.len() == 0 {
        seq!['0']
    } else {
        s.map_values(|c: char| if c == '1' { '1' } else { '0' })
    }
}

/// Renders a canonical pattern into the configured glyphs: `0` becomes
/// the dot glyph, `1` the dash glyph, anything else stays as it is.
pub open spec fn render_pattern(p: Seq<char>, o: Options) -> Seq<char> {
    p.map_values(|c: char| if c == '0' { o.dot } else if c == '1' { o.dash } else { c })
}

/// Builds the canonical pattern of one table entry's source string.
pub(crate) fn canonical_of(s: &str) -> (r: Vec<char>)
    ensures
        r@ == canonical_pattern(s@),
{
    let n = s.unicode_len();
    let mut r: Vec<char> = Vec::new();
    if n == 0 {
        r.push('0');
        assert(r@ =~= canonical_pattern(s@));
        return r;
    }
    let mut i: usize = 0;
    while i < n
        invariant
            n == s@.len(),
            n > 0,
            i <= n,
            r@.len() == i,
            forall|j: int| 0 <= j < i ==> r@[j] == (if s@[j] == '1' { '1' } else { '0' }),
        decreases n - i,
    {
        let c = s.get_char(i);
        if c == '1' {
            r.push('1');
        } else {
            r.push('0');
        }
        i += 1;
    }
    assert(r@ =~= canonical_pattern(s@));
    r
}

/// Renders one canonical pattern into the configured glyphs.
pub(crate) fn render_of(p: &Vec<char>, o: &Options) -> (r: Vec<char>)
    ensures
        r@ == render_pattern(p@, *o),
{
    let mut r: Vec<char> = Vec::new();
    let mut i: usize = 0;
    while i < p.len()
        invariant
            i <= p@.len(),
            r@.len() == i,
            forall|j: int| 0 <= j < i ==> r@[j] == render_pattern(p@, *o)[j],
        decreases p@.len() - i,
    {
        let c = p[i];
        if c == '0' {
            r.push(o.dot);
        } else if c == '1' {
            r.push(o.dash);
        } else {
            r.push(c);
        }
        i += 1;
    }
    assert(r@ =~= render_pattern(p@, *o));
    r
}

} // verus!
