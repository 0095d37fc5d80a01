//! Merging the per-script tables into the structure used by one call.
//!
//! The merged table set is one ordered list of entries: first the
//! priority overlay (a copy of the priority script's table), then the
//! synthetic word-gap entry mapping the separator glyph to the word-gap
//! glyph, then every script's table in canonical order. Encoding takes
//! the first entry whose character matches; decoding takes the first
//! entry whose rendered pattern matches, so earlier entries win all
//! collisions.

use vstd::prelude::*;

use crate::options::Options;
use crate::pattern::canonical_of;
use crate::pattern::canonical_pattern;
use crate::pattern::render_of;
use crate::pattern::render_pattern;
use crate::tables::arabic_pairs;
use crate::tables::cyrillic_pairs;
use crate::tables::greek_pairs;
use crate::tables::hebrew_pairs;
use crate::tables::japanese_pairs;
use crate::tables::korean_pairs;
use crate::tables::latin_extended_pairs;
use crate::tables::latin_pairs;
use crate::tables::numbers_pairs;
use crate::tables::persian_pairs;
use crate::tables::punctuation_pairs;
use crate::tables::script_chars;
use crate::tables::script_pairs;
use crate::tables::thai_pairs;
use crate::tables::latin_chars;
use crate::tables::numbers_chars;
use crate::tables::punctuation_chars;
use crate::tables::latin_extended_chars;
use crate::tables::cyrillic_chars;
use crate::tables::greek_chars;
use crate::tables::hebrew_chars;
use crate::tables::arabic_chars;
use crate::tables::persian_chars;
use crate::tables::japanese_chars;
use crate::tables::korean_chars;
use crate::tables::thai_chars;

verus! {

/// One merged-table entry: a display character and its pattern.
#[derive(Debug, Clone)]
pub(crate) struct MorseEntry {
    pub(crate) character: char,
    pub(crate) pattern: Vec<char>,
}

/// The abstract value of one entry.
pub(crate) open spec fn entry_view(e: MorseEntry) -> (char, Seq<char>) {
    (e.character, e.pattern@)
}

/// The abstract value of a list of entries.
pub(crate) open spec fn entries_view(s: Seq<MorseEntry>) -> Seq<(char, Seq<char>)> {
    s.map_values(|e: MorseEntry| entry_view(e))
}

/// A base table with every pattern in canonical form.
pub open spec fn table_view(pairs: Seq<(char, &'static str)>) -> Seq<(char, Seq<char>)> {
    pairs.map_values(|e: (char, &'static str)| (e.0, canonical_pattern(e.1@)))
}

/// Every script's base table in canonical order, one after another.
pub open spec fn base_entries() -> Seq<(char, Seq<char>)> {
    table_view(latin_pairs()) + table_view(numbers_pairs()) + table_view(punctuation_pairs())
        + table_view(latin_extended_pairs()) + table_view(cyrillic_pairs())
        + table_view(greek_pairs()) + table_view(hebrew_pairs()) + table_view(arabic_pairs())
        + table_view(persian_pairs()) + table_view(japanese_pairs()) + table_view(korean_pairs())
        + table_view(thai_pairs())
}

/// The merged table set of one call, with canonical patterns: the
/// priority overlay, then the word-gap entry, then every script in
/// canonical order.
pub open spec fn merged_canonical(o: Options) -> Seq<(char, Seq<char>)> {
    table_view(script_pairs(o.priority)) + seq![(o.separator, seq![o.space])] + base_entries()
}

/// A list of entries with every pattern rendered into the glyphs.
pub open spec fn rendered_entries(t: Seq<(char, Seq<char>)>, o: Options) -> Seq<
    (char, Seq<char>),
> {
    t.map_values(|e: (char, Seq<char>)| (e.0, render_pattern(e.1, o)))
}

/// The merged table set with every pattern rendered into the glyphs.
pub open spec fn merged_rendered(o: Options) -> Seq<(char, Seq<char>)> {
    rendered_entries(merged_canonical(o), o)
}

/// Reads the display character of one base-table pair.
fn pair_char(pairs: &Vec<(char, &'static str)>, j: usize) -> (r: char)
    requires
        j < pairs@.len(),
    ensures
        r == pairs@[j as int].0,
{
    pairs[j].0
}

/// Reads the pattern source string of one base-table pair.
fn pair_str(pairs: &Vec<(char, &'static str)>, j: usize) -> (r: &'static str)
    requires
        j < pairs@.len(),
    ensures
        r == pairs@[j as int].1,
{
    pairs[j].1
}

proof fn lemma_entries_view_push(v: Seq<MorseEntry>, e: MorseEntry)
    ensures
        entries_view(v.push(e)) == entries_view(v).push(entry_view(e)),
{
    assert(entries_view(v.push(e)) =~~= entries_view(v).push(entry_view(e)));
}

/// Appends one base table, in canonical form, to the merged list.
fn push_table(out: &mut Vec<MorseEntry>, pairs: &Vec<(char, &'static str)>)
    ensures
        entries_view(final(out)@) == entries_view(old(out)@) + table_view(pairs@),
{
    let mut j: usize = 0;
    while j < pairs.len()
        invariant
            j <= pairs@.len(),
            entries_view(out@) == entries_view(old(out)@) + table_view(
                pairs@.subrange(0, j as int),
            ),
        decreases pairs@.len() - j,
    {
        let ghost prev = out@;
        let c = pair_char(pairs, j);
        let s = pair_str(pairs, j);
        let pat = canonical_of(s);
        let entry = MorseEntry { character: c, pattern: pat };
        out.push(entry);
        proof {
            assert(out@.len() == prev.len() + 1);
            assert(entry_view(out@.last()) == (c, canonical_pattern(s@)));
            lemma_entries_view_push(prev, out@.last());
            assert(entries_view(out@) == entries_view(prev).push(
                (c, canonical_pattern(s@)),
            ));
            assert(pairs@.subrange(0, j + 1) =~= pairs@.subrange(0, j as int).push(pairs@[j as int]));
            assert(table_view(pairs@.subrange(0, j + 1)) =~~= table_view(
                pairs@.subrange(0, j as int),
            ).push((c, canonical_pattern(s@))));
            assert(entries_view(old(out)@) + table_view(pairs@.subrange(0, j + 1))
                =~= (entries_view(old(out)@) + table_view(pairs@.subrange(0, j as int))).push(
                (c, canonical_pattern(s@)),
            ));
        }
        j += 1;
    }
    proof {
        assert(pairs@.subrange(0, pairs@.len() as int) =~= pairs@);
    }
}

/// Builds every script's base table in canonical order, one after
/// another.
pub(crate) fn base_characters() -> (r: Vec<MorseEntry>)
    ensures
        entries_view(r@) == base_entries(),
{
    let mut out: Vec<MorseEntry> = Vec::new();
    proof {
        assert(entries_view(out@) =~= Seq::<(char, Seq<char>)>::empty());
    }
    let t = latin_chars();
    push_table(&mut out, &t);
    proof {
        assert(Seq::<(char, Seq<char>)>::empty() + table_view(latin_pairs()) =~= table_view(
            latin_pairs(),
        ));
    }
    let t = numbers_chars();
    push_table(&mut out, &t);
    let t = punctuation_chars();
    push_table(&mut out, &t);
    let t = latin_extended_chars();
    push_table(&mut out, &t);
    let t = cyrillic_chars();
    push_table(&mut out, &t);
    let t = greek_chars();
    push_table(&mut out, &t);
    let t = hebrew_chars();
    push_table(&mut out, &t);
    let t = arabic_chars();
    push_table(&mut out, &t);
    let t = persian_chars();
    push_table(&mut out, &t);
    let t = japanese_chars();
    push_table(&mut out, &t);
    let t = korean_chars();
    push_table(&mut out, &t);
    let t = thai_chars();
    push_table(&mut out, &t);
    out
}

/// Builds the merged table set with canonical patterns: the overlay, the
/// word-gap entry, then every script's table.
pub(crate) fn get_characters(o: &Options) -> (r: Vec<MorseEntry>)
    ensures
        entries_view(r@) == merged_canonical(*o),
{
    let mut out: Vec<MorseEntry> = Vec::new();
    proof {
        assert(entries_view(out@) =~= Seq::<(char, Seq<char>)>::empty());
    }
    let t = script_chars(o.priority);
    push_table(&mut out, &t);
    proof {
        assert(Seq::<(char, Seq<char>)>::empty() + table_view(script_pairs(o.priority))
            =~= table_view(script_pairs(o.priority)));
    }
    let ghost overlay = entries_view(out@);
    let mut gap: Vec<char> = Vec::new();
    gap.push(o.space);
    out.push(MorseEntry { character: o.separator, pattern: gap });
    proof {
        assert(entries_view(out@) =~= overlay + seq![(o.separator, seq![o.space])]);
    }
    let ghost head = entries_view(out@);
    let mut base = base_characters();
    out.append(&mut base);
    proof {
        assert(entries_view(out@) =~= head + base_entries());
    }
    out
}

/// Builds the merged table set with every pattern rendered into the
/// configured glyphs.
pub(crate) fn get_mapped_characters(o: &Options) -> (r: Vec<MorseEntry>)
    ensures
        entries_view(r@) == merged_rendered(*o),
{
    let characters = get_characters(o);
    let mut mapped: Vec<MorseEntry> = Vec::new();
    let mut j: usize = 0;
    while j < characters.len()
        invariant
            j <= characters@.len(),
            entries_view(characters@) == merged_canonical(*o),
            mapped@.len() == j,
            forall|i: int|
                0 <= i < j ==> entry_view(mapped@[i]) == (
                    merged_canonical(*o)[i].0,
                    render_pattern(merged_canonical(*o)[i].1, *o),
                ),
        decreases characters@.len() - j,
    {
        let e = &characters[j];
        let pat = render_of(&e.pattern, o);
        mapped.push(MorseEntry { character: e.character, pattern: pat });
        proof {
            assert(entry_view(characters@[j as int]) == entries_view(characters@)[j as int]);
            assert(entry_view(characters@[j as int]) == merged_canonical(*o)[j as int]);
        }
        j += 1;
    }
    proof {
        assert(entries_view(characters@).len() == characters@.len());
        assert(entries_view(mapped@) =~= merged_rendered(*o));
    }
    mapped
}

} // verus!
