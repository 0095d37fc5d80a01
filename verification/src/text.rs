//! Text normalization: whitespace handling and separator trimming.
//!
//! Before encoding, every whitespace run of the input collapses to one
//! separator glyph, leading and trailing separator glyphs are trimmed,
//! and the rest is folded to upper case. The decoder applies the same
//! collapsing and trimming, without the fold, before it splits its
//! input into units.

use vstd::prelude::*;

use crate::casing::fold_push;
use crate::casing::fold_seq;
use crate::options::Options;

verus! {

/// The whitespace characters: the characters with the Unicode
/// `White_Space` property.
pub open spec fn is_space_char(c: char) -> bool {
    ||| c == '\u{9}'
    ||| c == '\u{a}'
    ||| c == '\u{b}'
    ||| c == '\u{c}'
    ||| c == '\u{d}'
    ||| c == ' '
    ||| c == '\u{85}'
    ||| c == '\u{a0}'
    ||| c == '\u{1680}'
    ||| c == '\u{2000}'
    ||| c == '\u{2001}'
    ||| c == '\u{2002}'
    ||| c == '\u{2003}'
    ||| c == '\u{2004}'
    ||| c == '\u{2005}'
    ||| c == '\u{2006}'
    ||| c == '\u{2007}'
    ||| c == '\u{2008}'
    ||| c == '\u{2009}'
    ||| c == '\u{200a}'
    ||| c == '\u{2028}'
    ||| c == '\u{2029}'
    ||| c == '\u{202f}'
    ||| c == '\u{205f}'
    ||| c == '\u{3000}'
}

/// Decides whether a character is whitespace.
pub(crate) fn is_space(c: char) -> (r: bool)
    ensures
        r == is_space_char(c),
{
    c == '\u{9}' || c == '\u{a}' || c == '\u{b}' || c == '\u{c}' || c == '\u{d}' || c == ' '
        || c == '\u{85}' || c == '\u{a0}' || c == '\u{1680}' || c == '\u{2000}' || c == '\u{2001}'
        || c == '\u{2002}' || c == '\u{2003}' || c == '\u{2004}' || c == '\u{2005}' || c == '\u{2006}'
        || c == '\u{2007}' || c == '\u{2008}' || c == '\u{2009}' || c == '\u{200a}' || c == '\u{2028}'
        || c == '\u{2029}' || c == '\u{202f}' || c == '\u{205f}' || c == '\u{3000}'
}

/// Collapses every whitespace run to a single separator glyph: a
/// whitespace character followed by more whitespace is dropped, the
/// last character of a run becomes the separator, and everything else
/// stays as it is.
pub open spec fn collapse_ws(s: Seq<char>, sep: char) -> Seq<char>
    decreases s.len(),
{
    if s.len() == 0 {
        Seq::empty()
    } else if is_space_char(s[0]) {
        if s.len() > 1 && is_space_char(s[1]) {
            collapse_ws(s.drop_first(), sep)
        } else {
            seq![sep] + collapse_ws(s.drop_first(), sep)
        }
    } else {
        seq![s[0]] + collapse_ws(s.drop_first(), sep)
    }
}

/// Drops the leading separator glyphs.
pub open spec fn trim_leading(s: Seq<char>, sep: char) -> Seq<char>
    decreases s.len(),
{
    if s.len() > 0 && s[0] == sep {
        trim_leading(s.drop_first(), sep)
    } else {
        s
    }
}

/// Drops the trailing separator glyphs.
pub open spec fn trim_trailing(s: Seq<char>, sep: char) -> Seq<char>
    decreases s.len(),
{
    if s.len() > 0 && s[s.len() - 1] == sep {
        trim_trailing(s.drop_last(), sep)
    } else {
        s
    }
}

/// Drops the separator glyphs at both ends.
pub open spec fn trim_separators(s: Seq<char>, sep: char) -> Seq<char> {
    trim_trailing(trim_leading(s, sep), sep)
}

/// The encoder's normalized form of its input: whitespace runs
/// collapsed to the separator glyph, separator glyphs at the ends
/// trimmed, and the rest folded to upper case.
pub open spec fn spec_normalize(text: Seq<char>, o: Options) -> Seq<char> {
    fold_seq(trim_separators(collapse_ws(text, o.separator), o.separator))
}

/// Collapses every whitespace run of `s` to one separator glyph.
pub(crate) fn collapse_spaces(s: &Vec<char>, sep: char) -> (r: Vec<char>)
    ensures
        r@ == collapse_ws(s@, sep),
{
    let mut r: Vec<char> = Vec::new();
    let mut i: usize = 0;
    proof {
        assert(s@.skip(0) =~= s@);
        assert(r@ + collapse_ws(s@, sep) =~= collapse_ws(s@, sep));
    }
    while i < s.len()
        invariant
            i <= s@.len(),
            r@ + collapse_ws(s@.skip(i as int), sep) == collapse_ws(s@, sep),
        decreases s@.len() - i,
    {
        let ghost rest = s@.skip(i as int);
        proof {
            assert(rest.len() == s@.len() - i);
            assert(rest[0] == s@[i as int]);
            assert(rest.drop_first() =~= s@.skip(i as int + 1));
            if rest.len() > 1 {
                assert(rest[1] == s@[i as int + 1]);
            }
        }
        let ghost prev = r@;
        let c = s[i];
        if is_space(c) {
            if i + 1 < s.len() && is_space(s[i + 1]) {
                // a run continues: drop this character
            } else {
                r.push(sep);
            }
        } else {
            r.push(c);
        }
        proof {
            assert(r@ + collapse_ws(s@.skip(i as int + 1), sep) =~= collapse_ws(s@, sep));
        }
        i += 1;
    }
    proof {
        assert(s@.skip(s@.len() as int) =~= Seq::<char>::empty());
        assert(r@ =~= collapse_ws(s@, sep));
    }
    r
}

/// Removes the separator glyphs at both ends of `s`.
pub(crate) fn trim_ends(s: Vec<char>, sep: char) -> (r: Vec<char>)
    ensures
        r@ == trim_separators(s@, sep),
{
    let mut r = s;
    while r.len() > 0 && r[0] == sep
        invariant
            trim_leading(r@, sep) == trim_leading(s@, sep),
        decreases r@.len(),
    {
        let ghost prev = r@;
        r.remove(0);
        proof {
            assert(r@ =~= prev.drop_first());
        }
    }
    proof {
        assert(trim_leading(r@, sep) == r@);
    }
    let ghost led = r@;
    while r.len() > 0 && r[r.len() - 1] == sep
        invariant
            trim_trailing(r@, sep) == trim_trailing(led, sep),
        decreases r@.len(),
    {
        r.pop();
    }
    proof {
        assert(trim_trailing(r@, sep) == r@);
    }
    r
}

/// Folds a whole buffer to upper case.
pub(crate) fn fold_chars(s: &Vec<char>) -> (r: Vec<char>)
    ensures
        r@ == fold_seq(s@),
{
    let mut r: Vec<char> = Vec::new();
    let mut i: usize = 0;
    proof {
        assert(s@.skip(0) =~= s@);
        assert(r@ + fold_seq(s@) =~= fold_seq(s@));
    }
    while i < s.len()
        invariant
            i <= s@.len(),
            r@ + fold_seq(s@.skip(i as int)) == fold_seq(s@),
        decreases s@.len() - i,
    {
        let ghost rest = s@.skip(i as int);
        proof {
            assert(rest[0] == s@[i as int]);
            assert(rest.drop_first() =~= s@.skip(i as int + 1));
        }
        let c = s[i];
        fold_push(&mut r, c);
        proof {
            assert(r@ + fold_seq(s@.skip(i as int + 1)) =~= fold_seq(s@));
        }
        i += 1;
    }
    proof {
        assert(s@.skip(s@.len() as int) =~= Seq::<char>::empty());
        assert(r@ =~= fold_seq(s@));
    }
    r
}

/// Normalizes encoder input: collapse whitespace runs, trim separator
/// glyphs, fold to upper case.
pub(crate) fn normalize_text(s: &Vec<char>, o: &Options) -> (r: Vec<char>)
    ensures
        r@ == spec_normalize(s@, *o),
{
    let collapsed = collapse_spaces(s, o.separator);
    let trimmed = trim_ends(collapsed, o.separator);
    let folded = fold_chars(&trimmed);
    folded
}

} // verus!
