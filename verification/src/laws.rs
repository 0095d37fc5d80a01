//! The library's laws: properties proved of the specification model
//! that [`crate::codec::spec_encode`] and [`crate::codec::spec_decode`]
//! define and the executable encoder and decoder are proved to meet.

use vstd::prelude::*;

use crate::casing::fold_char;
use crate::casing::upper_char;
use crate::casing::fold_seq;
use crate::codec::decode_unit;
use crate::codec::decode_units;
use crate::codec::encode_all;
use crate::codec::encode_unit;
use crate::codec::lookup_pattern;
use crate::codec::reverse_lookup;
use crate::codec::spec_decode;
use crate::codec::spec_encode;
use crate::merge::base_entries;
use crate::merge::merged_canonical;
use crate::merge::merged_rendered;
use crate::merge::rendered_entries;
use crate::merge::table_view;
use crate::options::Options;
use crate::options::default_options;
use crate::pattern::canonical_pattern;
use crate::pattern::render_pattern;
use crate::tables::arabic_pairs;
use crate::tables::cyrillic_pairs;
use crate::tables::greek_pairs;
use crate::tables::hebrew_pairs;
use crate::tables::japanese_pairs;
use crate::tables::korean_pairs;
use crate::tables::latin_extended_pairs;
use crate::tables::latin_pairs;
use crate::tables::numbers_pairs;
use crate::tables::persian_pairs;
use crate::tables::punctuation_pairs;
use crate::tables::script_pairs;
use crate::tables::thai_pairs;
use crate::text::collapse_ws;
use crate::text::is_space_char;
use crate::text::spec_normalize;
use crate::text::trim_leading;
use crate::text::trim_separators;
use crate::text::trim_trailing;

verus! {

// ---------------------------------------------------------------------
// Vocabulary
// ---------------------------------------------------------------------

/// The table has an entry for the character.
pub open spec fn tbl_has_key(t: Seq<(char, Seq<char>)>, c: char) -> bool {
    exists|j: int| 0 <= j < t.len() && t[j].0 == c
}

/// No two entries of the table share one pattern.
pub open spec fn patterns_injective(t: Seq<(char, Seq<char>)>) -> bool {
    forall|i: int, j: int|
        0 <= i < t.len() && 0 <= j < t.len() && t[i].1 == t[j].1 ==> i == j
}

/// A well-formed canonical pattern: nonempty and written over `0`/`1`.
pub open spec fn pattern_wf(p: Seq<char>) -> bool {
    p.len() > 0 && (forall|i: int| 0 <= i < p.len() ==> p[i] == '0' || p[i] == '1')
}

spec fn all_patterns_wf(t: Seq<(char, Seq<char>)>) -> bool {
    forall|j: int| 0 <= j < t.len() ==> pattern_wf(#[trigger] t[j].1)
}

// ---------------------------------------------------------------------
// Lookup lemmas
// ---------------------------------------------------------------------

proof fn lemma_lookup_add(x: Seq<(char, Seq<char>)>, y: Seq<(char, Seq<char>)>, c: char)
    ensures
        lookup_pattern(x + y, c) == (if lookup_pattern(x, c).is_some() {
            lookup_pattern(x, c)
        } else {
            lookup_pattern(y, c)
        }),
    decreases x.len(),
{
    if x.len() == 0 {
        assert(x + y =~= y);
    } else {
        assert((x + y)[0] == x[0]);
        assert((x + y).drop_first() =~= x.drop_first() + y);
        lemma_lookup_add(x.drop_first(), y, c);
    }
}

proof fn lemma_rev_add(x: Seq<(char, Seq<char>)>, y: Seq<(char, Seq<char>)>, u: Seq<char>)
    ensures
        reverse_lookup(x + y, u) == (if reverse_lookup(x, u).is_some() {
            reverse_lookup(x, u)
        } else {
            reverse_lookup(y, u)
        }),
    decreases x.len(),
{
    if x.len() == 0 {
        assert(x + y =~= y);
    } else {
        assert((x + y)[0] == x[0]);
        assert((x + y).drop_first() =~= x.drop_first() + y);
        lemma_rev_add(x.drop_first(), y, u);
    }
}

proof fn lemma_lookup_rendered(t: Seq<(char, Seq<char>)>, o: Options, c: char)
    ensures
        lookup_pattern(rendered_entries(t, o), c) == (match lookup_pattern(t, c) {
            Some(p) => Some(render_pattern(p, o)),
            None => None::<Seq<char>>,
        }),
    decreases t.len(),
{
    if t.len() == 0 {
        assert(rendered_entries(t, o) =~= Seq::<(char, Seq<char>)>::empty());
    } else {
        assert(rendered_entries(t, o)[0] == (t[0].0, render_pattern(t[0].1, o)));
        assert(rendered_entries(t, o).drop_first() =~= rendered_entries(t.drop_first(), o));
        lemma_lookup_rendered(t.drop_first(), o, c);
    }
}

proof fn lemma_lookup_has_key(t: Seq<(char, Seq<char>)>, c: char)
    requires
        tbl_has_key(t, c),
    ensures
        lookup_pattern(t, c).is_some(),
    decreases t.len(),
{
    if t[0].0 != c {
        let j = choose|j: int| 0 <= j < t.len() && t[j].0 == c;
        assert(t.drop_first()[j - 1] == t[j]);
        lemma_lookup_has_key(t.drop_first(), c);
    }
}

proof fn lemma_lookup_no_key(t: Seq<(char, Seq<char>)>, c: char)
    requires
        !tbl_has_key(t, c),
    ensures
        lookup_pattern(t, c) == None::<Seq<char>>,
    decreases t.len(),
{
    if t.len() > 0 {
        assert(t[0].0 != c);
        assert forall|j: int| 0 <= j < t.drop_first().len() implies t.drop_first()[j].0 != c by {
            assert(t.drop_first()[j] == t[j + 1]);
        }
        lemma_lookup_no_key(t.drop_first(), c);
    }
}

proof fn lemma_rev_no_match(t: Seq<(char, Seq<char>)>, u: Seq<char>)
    requires
        forall|j: int| 0 <= j < t.len() ==> t[j].1 != u,
    ensures
        reverse_lookup(t, u) == None::<char>,
    decreases t.len(),
{
    if t.len() > 0 {
        assert(t[0].1 != u);
        assert forall|j: int| 0 <= j < t.drop_first().len() implies t.drop_first()[j].1 != u by {
            assert(t.drop_first()[j] == t[j + 1]);
        }
        lemma_rev_no_match(t.drop_first(), u);
    }
}

proof fn lemma_lookup_entry(t: Seq<(char, Seq<char>)>, c: char)
    requires
        lookup_pattern(t, c).is_some(),
    ensures
        exists|j: int|
            0 <= j < t.len() && t[j].0 == c && Some(t[j].1) == lookup_pattern(t, c),
    decreases t.len(),
{
    if t[0].0 == c {
        assert(0 <= 0 < t.len() && t[0].0 == c && Some(t[0].1) == lookup_pattern(t, c));
    } else {
        lemma_lookup_entry(t.drop_first(), c);
        let j = choose|j: int|
            0 <= j < t.drop_first().len() && t.drop_first()[j].0 == c && Some(
                t.drop_first()[j].1,
            ) == lookup_pattern(t.drop_first(), c);
        assert(t.drop_first()[j] == t[j + 1]);
        assert(0 <= j + 1 < t.len() && t[j + 1].0 == c && Some(t[j + 1].1) == lookup_pattern(
            t,
            c,
        ));
    }
}

proof fn lemma_injective_tail(t: Seq<(char, Seq<char>)>)
    requires
        patterns_injective(t),
        t.len() > 0,
    ensures
        patterns_injective(t.drop_first()),
{
    assert forall|i: int, j: int|
        0 <= i < t.drop_first().len() && 0 <= j < t.drop_first().len() && t.drop_first()[i].1
            == t.drop_first()[j].1 implies i == j by {
        assert(t.drop_first()[i] == t[i + 1]);
        assert(t.drop_first()[j] == t[j + 1]);
    }
}

proof fn lemma_rev_of_injective(t: Seq<(char, Seq<char>)>, c: char, p: Seq<char>)
    requires
        patterns_injective(t),
        lookup_pattern(t, c) == Some(p),
    ensures
        reverse_lookup(t, p) == Some(c),
    decreases t.len(),
{
    if t[0].0 == c {
        assert(t[0].1 == p);
    } else {
        assert(lookup_pattern(t.drop_first(), c) == Some(p));
        if t[0].1 == p {
            lemma_lookup_entry(t.drop_first(), c);
            let j = choose|j: int|
                0 <= j < t.drop_first().len() && t.drop_first()[j].0 == c && Some(
                    t.drop_first()[j].1,
                ) == lookup_pattern(t.drop_first(), c);
            assert(t.drop_first()[j] == t[j + 1]);
            assert(t[j + 1].1 == t[0].1);
            assert(false);
        }
        lemma_injective_tail(t);
        lemma_rev_of_injective(t.drop_first(), c, p);
    }
}

// ---------------------------------------------------------------------
// Well-formedness of the table data
// ---------------------------------------------------------------------

proof fn lemma_canonical_wf(s: Seq<char>)
    ensures
        pattern_wf(canonical_pattern(s)),
{
    if s.len() == 0 {
        assert(canonical_pattern(s)[0] == '0');
    }
}

proof fn lemma_table_view_wf(pairs: Seq<(char, &'static str)>)
    ensures
        table_view(pairs).len() == pairs.len(),
        all_patterns_wf(table_view(pairs)),
{
    assert forall|j: int| 0 <= j < table_view(pairs).len() implies pattern_wf(
        #[trigger] table_view(pairs)[j].1,
    ) by {
        assert(table_view(pairs)[j] == (pairs[j].0, canonical_pattern(pairs[j].1@)));
        lemma_canonical_wf(pairs[j].1@);
    }
}

proof fn lemma_all_wf_add(x: Seq<(char, Seq<char>)>, y: Seq<(char, Seq<char>)>)
    requires
        all_patterns_wf(x),
        all_patterns_wf(y),
    ensures
        all_patterns_wf(x + y),
{
    assert forall|j: int| 0 <= j < (x + y).len() implies pattern_wf(#[trigger] (x + y)[j].1) by {
        if j < x.len() {
            assert((x + y)[j] == x[j]);
        } else {
            assert((x + y)[j] == y[j - x.len()]);
        }
    }
}

proof fn lemma_base_wf()
    ensures
        all_patterns_wf(base_entries()),
{
    lemma_table_view_wf(latin_pairs());
    lemma_table_view_wf(numbers_pairs());
    lemma_table_view_wf(punctuation_pairs());
    lemma_table_view_wf(latin_extended_pairs());
    lemma_table_view_wf(cyrillic_pairs());
    lemma_table_view_wf(greek_pairs());
    lemma_table_view_wf(hebrew_pairs());
    lemma_table_view_wf(arabic_pairs());
    lemma_table_view_wf(persian_pairs());
    lemma_table_view_wf(japanese_pairs());
    lemma_table_view_wf(korean_pairs());
    lemma_table_view_wf(thai_pairs());
    let t1 = table_view(latin_pairs()) + table_view(numbers_pairs());
    lemma_all_wf_add(table_view(latin_pairs()), table_view(numbers_pairs()));
    let t2 = t1 + table_view(punctuation_pairs());
    lemma_all_wf_add(t1, table_view(punctuation_pairs()));
    let t3 = t2 + table_view(latin_extended_pairs());
    lemma_all_wf_add(t2, table_view(latin_extended_pairs()));
    let t4 = t3 + table_view(cyrillic_pairs());
    lemma_all_wf_add(t3, table_view(cyrillic_pairs()));
    let t5 = t4 + table_view(greek_pairs());
    lemma_all_wf_add(t4, table_view(greek_pairs()));
    let t6 = t5 + table_view(hebrew_pairs());
    lemma_all_wf_add(t5, table_view(hebrew_pairs()));
    let t7 = t6 + table_view(arabic_pairs());
    lemma_all_wf_add(t6, table_view(arabic_pairs()));
    let t8 = t7 + table_view(persian_pairs());
    lemma_all_wf_add(t7, table_view(persian_pairs()));
    let t9 = t8 + table_view(japanese_pairs());
    lemma_all_wf_add(t8, table_view(japanese_pairs()));
    let t10 = t9 + table_view(korean_pairs());
    lemma_all_wf_add(t9, table_view(korean_pairs()));
    let t11 = t10 + table_view(thai_pairs());
    lemma_all_wf_add(t10, table_view(thai_pairs()));
    assert(base_entries() == t11);
}

/// Every pattern of the merged, rendered table set is nonempty.
proof fn lemma_mr_patterns_nonempty(o: Options)
    ensures
        forall|j: int| 0 <= j < merged_rendered(o).len() ==> #[trigger] merged_rendered(
            o,
        )[j].1.len() > 0,
{
    let a = table_view(script_pairs(o.priority));
    let s = seq![(o.separator, seq![o.space])];
    let b = base_entries();
    lemma_table_view_wf(script_pairs(o.priority));
    lemma_base_wf();
    assert forall|j: int| 0 <= j < merged_rendered(o).len() implies #[trigger] merged_rendered(
        o,
    )[j].1.len() > 0 by {
        let mc = merged_canonical(o);
        assert(merged_rendered(o)[j] == (mc[j].0, render_pattern(mc[j].1, o)));
        assert(render_pattern(mc[j].1, o).len() == mc[j].1.len());
        if j < a.len() {
            assert(mc[j] == a[j]);
        } else if j == a.len() {
            assert(mc[j] == (o.separator, seq![o.space]));
        } else {
            assert(mc[j] == b[j - a.len() - 1]);
        }
    }
}

// ---------------------------------------------------------------------
// Empty input gives empty output
// ---------------------------------------------------------------------

/// Encoding the empty text yields the empty Morse string, under any
/// options.
pub proof fn lemma_encode_empty(o: Options)
    ensures
        spec_encode(Seq::empty(), o) == Seq::<char>::empty(),
{
    assert(collapse_ws(Seq::empty(), o.separator) =~= Seq::<char>::empty());
    assert(spec_normalize(Seq::empty(), o) =~= Seq::<char>::empty());
}

/// Decoding the empty Morse string yields the empty text, under any
/// options.
pub proof fn lemma_decode_empty(o: Options)
    ensures
        spec_decode(Seq::empty(), o) == Seq::<char>::empty(),
{
    assert(collapse_ws(Seq::empty(), o.separator) =~= Seq::<char>::empty());
    assert(trim_separators(Seq::empty(), o.separator) =~= Seq::<char>::empty());
    lemma_mr_patterns_nonempty(o);
    assert forall|j: int| 0 <= j < merged_rendered(o).len() implies merged_rendered(o)[j].1
        != Seq::<char>::empty() by {
        assert(merged_rendered(o)[j].1.len() > 0);
    }
    lemma_rev_no_match(merged_rendered(o), Seq::empty());
    assert(decode_units(Seq::empty(), Seq::empty(), o) == decode_unit(Seq::empty(), o));
    assert(decode_unit(Seq::empty(), o) =~= Seq::<char>::empty());
}

// ---------------------------------------------------------------------
// Character classes through normalization
// ---------------------------------------------------------------------

/// A text character that the priority overlay handles completely: it
/// is not whitespace, and every character it folds to is a key of the
/// overlay table, differs from the separator glyph and is not
/// whitespace.
pub open spec fn priority_letter(c: char, o: Options) -> bool {
    &&& !is_space_char(c)
    &&& forall|k: int|
        0 <= k < fold_char(c).len() ==> #[trigger] fold_char(c)[k] != o.separator
            && !is_space_char(fold_char(c)[k]) && tbl_has_key(
            table_view(script_pairs(o.priority)),
            fold_char(c)[k],
        )
}

spec fn norm_char_ok(c: char, o: Options) -> bool {
    c == o.separator || (!is_space_char(c) && c != o.separator && tbl_has_key(
        table_view(script_pairs(o.priority)),
        c,
    ))
}

proof fn lemma_collapse_classes(s: Seq<char>, o: Options)
    requires
        forall|i: int| 0 <= i < s.len() ==> is_space_char(#[trigger] s[i]) || priority_letter(
            s[i],
            o,
        ),
    ensures
        forall|k: int|
            0 <= k < collapse_ws(s, o.separator).len() ==> #[trigger] collapse_ws(
                s,
                o.separator,
            )[k] == o.separator || priority_letter(collapse_ws(s, o.separator)[k], o),
    decreases s.len(),
{
    if s.len() > 0 {
        let tail = s.drop_first();
        assert forall|i: int| 0 <= i < tail.len() implies is_space_char(#[trigger] tail[i])
            || priority_letter(tail[i], o) by {
            assert(tail[i] == s[i + 1]);
        }
        lemma_collapse_classes(tail, o);
        let ct = collapse_ws(tail, o.separator);
        if is_space_char(s[0]) && !(s.len() > 1 && is_space_char(s[1])) {
            assert forall|k: int|
                0 <= k < collapse_ws(s, o.separator).len() implies #[trigger] collapse_ws(
                s,
                o.separator,
            )[k] == o.separator || priority_letter(collapse_ws(s, o.separator)[k], o) by {
                if k > 0 {
                    assert(collapse_ws(s, o.separator)[k] == ct[k - 1]);
                }
            }
        } else if !is_space_char(s[0]) {
            assert forall|k: int|
                0 <= k < collapse_ws(s, o.separator).len() implies #[trigger] collapse_ws(
                s,
                o.separator,
            )[k] == o.separator || priority_letter(collapse_ws(s, o.separator)[k], o) by {
                if k > 0 {
                    assert(collapse_ws(s, o.separator)[k] == ct[k - 1]);
                } else {
                    assert(collapse_ws(s, o.separator)[0] == s[0]);
                }
            }
        }
    }
}

proof fn lemma_trim_leading_suffix(s: Seq<char>, sep: char)
    ensures
        exists|m: int| 0 <= m <= s.len() && trim_leading(s, sep) == s.skip(m),
    decreases s.len(),
{
    if s.len() > 0 && s[0] == sep {
        lemma_trim_leading_suffix(s.drop_first(), sep);
        let m = choose|m: int|
            0 <= m <= s.drop_first().len() && trim_leading(s.drop_first(), sep)
                == s.drop_first().skip(m);
        assert(s.drop_first().skip(m) =~= s.skip(m + 1));
        assert(trim_leading(s, sep) == s.skip(m + 1));
    } else {
        assert(s.skip(0) =~= s);
        assert(trim_leading(s, sep) == s.skip(0));
    }
}

proof fn lemma_trim_trailing_prefix(s: Seq<char>, sep: char)
    ensures
        exists|m: int| 0 <= m <= s.len() && trim_trailing(s, sep) == s.take(m),
    decreases s.len(),
{
    if s.len() > 0 && s[s.len() - 1] == sep {
        lemma_trim_trailing_prefix(s.drop_last(), sep);
        let m = choose|m: int|
            0 <= m <= s.drop_last().len() && trim_trailing(s.drop_last(), sep)
                == s.drop_last().take(m);
        assert(s.drop_last().take(m) =~= s.take(m));
        assert(trim_trailing(s, sep) == s.take(m));
    } else {
        assert(s.take(s.len() as int) =~= s);
        assert(trim_trailing(s, sep) == s.take(s.len() as int));
    }
}

proof fn lemma_fold_classes(s: Seq<char>, o: Options)
    requires
        fold_char(o.separator) == seq![o.separator],
        forall|i: int| 0 <= i < s.len() ==> #[trigger] s[i] == o.separator || priority_letter(
            s[i],
            o,
        ),
    ensures
        forall|k: int| 0 <= k < fold_seq(s).len() ==> norm_char_ok(#[trigger] fold_seq(s)[k], o),
    decreases s.len(),
{
    if s.len() > 0 {
        let tail = s.drop_first();
        assert forall|i: int| 0 <= i < tail.len() implies #[trigger] tail[i] == o.separator
            || priority_letter(tail[i], o) by {
            assert(tail[i] == s[i + 1]);
        }
        lemma_fold_classes(tail, o);
        let fc = fold_char(s[0]);
        assert forall|k: int| 0 <= k < fold_seq(s).len() implies norm_char_ok(
            #[trigger] fold_seq(s)[k],
            o,
        ) by {
            if k < fc.len() {
                assert(fold_seq(s)[k] == fc[k]);
                if s[0] == o.separator {
                    assert(fc[k] == o.separator);
                }
            } else {
                assert(fold_seq(s)[k] == fold_seq(tail)[k - fc.len()]);
            }
        }
    }
}

proof fn lemma_normalize_classes(text: Seq<char>, o: Options)
    requires
        fold_char(o.separator) == seq![o.separator],
        forall|i: int|
            0 <= i < text.len() ==> is_space_char(#[trigger] text[i]) || priority_letter(
                text[i],
                o,
            ),
    ensures
        forall|k: int|
            0 <= k < spec_normalize(text, o).len() ==> norm_char_ok(
                #[trigger] spec_normalize(text, o)[k],
                o,
            ),
{
    let sep = o.separator;
    let t1 = collapse_ws(text, sep);
    lemma_collapse_classes(text, o);
    let t2 = trim_leading(t1, sep);
    lemma_trim_leading_suffix(t1, sep);
    let m1 = choose|m: int| 0 <= m <= t1.len() && trim_leading(t1, sep) == t1.skip(m);
    assert forall|k: int| 0 <= k < t2.len() implies #[trigger] t2[k] == sep || priority_letter(
        t2[k],
        o,
    ) by {
        assert(t2[k] == t1[k + m1]);
    }
    let t3 = trim_trailing(t2, sep);
    lemma_trim_trailing_prefix(t2, sep);
    let m2 = choose|m: int| 0 <= m <= t2.len() && trim_trailing(t2, sep) == t2.take(m);
    assert forall|k: int| 0 <= k < t3.len() implies #[trigger] t3[k] == sep || priority_letter(
        t3[k],
        o,
    ) by {
        assert(t3[k] == t2[k]);
    }
    lemma_fold_classes(t3, o);
}

// ---------------------------------------------------------------------
// The units of one call
// ---------------------------------------------------------------------

/// The decomposition of the merged rendered tables into the rendered
/// overlay, the rendered word-gap entry and the rendered base tables.
proof fn lemma_mr_decomp(o: Options)
    ensures
        merged_rendered(o) == rendered_entries(table_view(script_pairs(o.priority)), o)
            + rendered_entries(seq![(o.separator, seq![o.space])], o) + rendered_entries(
            base_entries(),
            o,
        ),
{
    let a = table_view(script_pairs(o.priority));
    let s = seq![(o.separator, seq![o.space])];
    let b = base_entries();
    assert(rendered_entries((a + s) + b, o) =~= rendered_entries(a + s, o) + rendered_entries(
        b,
        o,
    ));
    assert(rendered_entries(a + s, o) =~= rendered_entries(a, o) + rendered_entries(s, o));
}

proof fn lemma_rendered_singleton(o: Options)
    requires
        o.space != '0',
        o.space != '1',
    ensures
        rendered_entries(seq![(o.separator, seq![o.space])], o) == seq![
            (o.separator, seq![o.space]),
        ],
{
    assert(render_pattern(seq![o.space], o) =~= seq![o.space]);
    assert(rendered_entries(seq![(o.separator, seq![o.space])], o) =~= seq![
        (o.separator, seq![o.space]),
    ]);
}

/// What one unit may hold: nothing empty, no separator glyph, no
/// whitespace, and decoding it restores exactly the character it
/// encodes.
spec fn unit_ok(c: char, o: Options) -> bool {
    &&& encode_unit(c, o).len() > 0
    &&& forall|k: int|
        0 <= k < encode_unit(c, o).len() ==> #[trigger] encode_unit(c, o)[k] != o.separator
            && !is_space_char(encode_unit(c, o)[k])
    &&& decode_unit(encode_unit(c, o), o) == seq![c]
}

proof fn lemma_unit_sep(o: Options)
    requires
        o.wf(),
        !is_space_char(o.space),
        o.space != '0',
        o.space != '1',
        !tbl_has_key(table_view(script_pairs(o.priority)), o.separator),
    ensures
        encode_unit(o.separator, o) == seq![o.space],
        unit_ok(o.separator, o),
{
    let a = table_view(script_pairs(o.priority));
    let s = seq![(o.separator, seq![o.space])];
    let b = base_entries();
    let mc = merged_canonical(o);
    // forward lookup: the overlay has no key for the separator, the
    // word-gap entry does
    lemma_lookup_no_key(a, o.separator);
    lemma_lookup_add(a, s, o.separator);
    lemma_lookup_add(a + s, b, o.separator);
    assert(lookup_pattern(s, o.separator) == Some(seq![o.space]));
    assert(lookup_pattern(mc, o.separator) == Some(seq![o.space]));
    lemma_lookup_rendered(mc, o, o.separator);
    assert(render_pattern(seq![o.space], o) =~= seq![o.space]);
    assert(encode_unit(o.separator, o) == seq![o.space]);
    // reverse lookup: nothing in the rendered overlay matches the
    // word-gap glyph, the word-gap entry does
    let ra = rendered_entries(a, o);
    let rs = rendered_entries(s, o);
    let rb = rendered_entries(b, o);
    lemma_mr_decomp(o);
    lemma_rendered_singleton(o);
    lemma_table_view_wf(script_pairs(o.priority));
    assert forall|j: int| 0 <= j < ra.len() implies ra[j].1 != seq![o.space] by {
        assert(ra[j] == (a[j].0, render_pattern(a[j].1, o)));
        assert(pattern_wf(a[j].1));
        let p = render_pattern(a[j].1, o);
        if p.len() == 1 {
            assert(p[0] == o.dot || p[0] == o.dash);
            assert(seq![o.space][0] == o.space);
        }
    }
    lemma_rev_no_match(ra, seq![o.space]);
    lemma_rev_add(ra, rs, seq![o.space]);
    lemma_rev_add(ra + rs, rb, seq![o.space]);
    assert(reverse_lookup(rs, seq![o.space]) == Some(o.separator));
    assert(merged_rendered(o) == (ra + rs) + rb);
    assert(reverse_lookup(merged_rendered(o), seq![o.space]) == Some(o.separator));
    assert(decode_unit(seq![o.space], o) == seq![o.separator]);
    assert(encode_unit(o.separator, o)[0] == o.space);
}

proof fn lemma_rendered_wf_chars(p: Seq<char>, o: Options)
    requires
        pattern_wf(p),
    ensures
        render_pattern(p, o).len() == p.len(),
        forall|k: int|
            0 <= k < p.len() ==> #[trigger] render_pattern(p, o)[k] == o.dot || render_pattern(
                p,
                o,
            )[k] == o.dash,
{
}

proof fn lemma_render_injective(pa: Seq<char>, pb: Seq<char>, o: Options)
    requires
        o.dot != o.dash,
        pattern_wf(pa),
        pattern_wf(pb),
        render_pattern(pa, o) == render_pattern(pb, o),
    ensures
        pa == pb,
{
    assert(render_pattern(pa, o).len() == pa.len());
    assert(render_pattern(pb, o).len() == pb.len());
    assert forall|k: int| 0 <= k < pa.len() implies pa[k] == pb[k] by {
        assert(render_pattern(pa, o)[k] == (if pa[k] == '0' {
            o.dot
        } else if pa[k] == '1' {
            o.dash
        } else {
            pa[k]
        }));
        assert(render_pattern(pb, o)[k] == (if pb[k] == '0' {
            o.dot
        } else if pb[k] == '1' {
            o.dash
        } else {
            pb[k]
        }));
    }
    assert(pa =~= pb);
}

proof fn lemma_rendered_injective(t: Seq<(char, Seq<char>)>, o: Options)
    requires
        o.dot != o.dash,
        patterns_injective(t),
        all_patterns_wf(t),
    ensures
        patterns_injective(rendered_entries(t, o)),
{
    let rt = rendered_entries(t, o);
    assert forall|i: int, j: int|
        0 <= i < rt.len() && 0 <= j < rt.len() && rt[i].1 == rt[j].1 implies i == j by {
        assert(rt[i] == (t[i].0, render_pattern(t[i].1, o)));
        assert(rt[j] == (t[j].0, render_pattern(t[j].1, o)));
        lemma_render_injective(t[i].1, t[j].1, o);
    }
}

proof fn lemma_unit_letter(c: char, o: Options)
    requires
        o.wf(),
        !is_space_char(o.dot),
        !is_space_char(o.dash),
        patterns_injective(table_view(script_pairs(o.priority))),
        tbl_has_key(table_view(script_pairs(o.priority)), c),
        c != o.separator,
    ensures
        unit_ok(c, o),
    decreases 0int,
{
    let a = table_view(script_pairs(o.priority));
    let s = seq![(o.separator, seq![o.space])];
    let b = base_entries();
    let mc = merged_canonical(o);
    lemma_table_view_wf(script_pairs(o.priority));
    lemma_lookup_has_key(a, c);
    lemma_lookup_entry(a, c);
    let j = choose|j: int| 0 <= j < a.len() && a[j].0 == c && Some(a[j].1) == lookup_pattern(a, c);
    let p = a[j].1;
    assert(pattern_wf(p));
    lemma_lookup_add(a, s, c);
    lemma_lookup_add(a + s, b, c);
    assert(lookup_pattern(mc, c) == Some(p));
    lemma_lookup_rendered(mc, o, c);
    let rp = render_pattern(p, o);
    assert(encode_unit(c, o) == rp);
    lemma_rendered_wf_chars(p, o);
    // the reverse index maps the unit back to this very character
    let ra = rendered_entries(a, o);
    let rs = rendered_entries(s, o);
    let rb = rendered_entries(b, o);
    lemma_mr_decomp(o);
    lemma_rendered_injective(a, o);
    lemma_lookup_rendered(a, o, c);
    assert(lookup_pattern(ra, c) == Some(rp));
    lemma_rev_of_injective(ra, c, rp);
    lemma_rev_add(ra, rs, rp);
    lemma_rev_add(ra + rs, rb, rp);
    assert(merged_rendered(o) == (ra + rs) + rb);
    assert(reverse_lookup(merged_rendered(o), rp) == Some(c));
    assert(decode_unit(encode_unit(c, o), o) == seq![c]);
}

// ---------------------------------------------------------------------
// Joining and splitting units
// ---------------------------------------------------------------------

proof fn lemma_decode_units_acc(u: Seq<char>, rest: Seq<char>, cur: Seq<char>, o: Options)
    requires
        forall|i: int| 0 <= i < u.len() ==> #[trigger] u[i] != o.separator,
    ensures
        decode_units(u + rest, cur, o) == decode_units(rest, cur + u, o),
    decreases u.len(),
{
    if u.len() == 0 {
        assert(u + rest =~= rest);
        assert(cur + u =~= cur);
    } else {
        assert((u + rest)[0] == u[0]);
        assert((u + rest).drop_first() =~= u.drop_first() + rest);
        assert forall|i: int| 0 <= i < u.drop_first().len() implies #[trigger] u.drop_first()[i]
            != o.separator by {
            assert(u.drop_first()[i] == u[i + 1]);
        }
        lemma_decode_units_acc(u.drop_first(), rest, cur.push(u[0]), o);
        assert(cur.push(u[0]) + u.drop_first() =~= cur + u);
    }
}

proof fn lemma_encode_all_last(n: Seq<char>, o: Options)
    requires
        n.len() > 0,
    ensures
        encode_all(n, o).len() > 0,
        encode_all(n, o).last() == o.separator,
    decreases n.len(),
{
    let u0 = encode_unit(n[0], o);
    if n.len() == 1 {
        assert(encode_all(n.drop_first(), o) == Seq::<char>::empty());
        assert(encode_all(n, o) =~= u0 + seq![o.separator]);
        assert(encode_all(n, o).last() == o.separator);
    } else {
        let ea2 = encode_all(n.drop_first(), o);
        lemma_encode_all_last(n.drop_first(), o);
        assert(encode_all(n, o) == u0 + seq![o.separator] + ea2);
        assert(encode_all(n, o).last() == ea2.last());
    }
}

proof fn lemma_encode_all_structure(n: Seq<char>, o: Options)
    requires
        n.len() > 0,
        forall|i: int| 0 <= i < n.len() ==> unit_ok(#[trigger] n[i], o),
    ensures
        encode_all(n, o).len() > 1,
        encode_all(n, o).last() == o.separator,
        encode_all(n, o)[0] != o.separator,
        !is_space_char(encode_all(n, o)[0]),
        forall|i: int|
            0 <= i < encode_all(n, o).len() && is_space_char(#[trigger] encode_all(n, o)[i])
                ==> encode_all(n, o)[i] == o.separator,
        forall|i: int|
            0 <= i < encode_all(n, o).len() - 1 && #[trigger] encode_all(n, o)[i] == o.separator
                ==> encode_all(n, o)[i + 1] != o.separator && !is_space_char(
                encode_all(n, o)[i + 1],
            ),
    decreases n.len(),
{
    let u0 = encode_unit(n[0], o);
    let ea = encode_all(n, o);
    assert(unit_ok(n[0], o));
    if n.len() == 1 {
        assert(encode_all(n.drop_first(), o) == Seq::<char>::empty());
        assert(ea =~= u0 + seq![o.separator]);
        assert(ea[0] == u0[0]);
        assert forall|i: int|
            0 <= i < ea.len() && is_space_char(#[trigger] ea[i]) implies ea[i] == o.separator by {
            if i < u0.len() {
                assert(ea[i] == u0[i]);
            }
        }
        assert forall|i: int|
            0 <= i < ea.len() - 1 && #[trigger] ea[i] == o.separator implies ea[i + 1]
                != o.separator && !is_space_char(ea[i + 1]) by {
            assert(ea[i] == u0[i]);
        }
    } else {
        let tail = n.drop_first();
        let ea2 = encode_all(tail, o);
        assert forall|i: int| 0 <= i < tail.len() implies unit_ok(#[trigger] tail[i], o) by {
            assert(tail[i] == n[i + 1]);
        }
        lemma_encode_all_structure(tail, o);
        assert(ea == u0 + seq![o.separator] + ea2);
        assert(ea =~= (u0 + seq![o.separator]) + ea2);
        let w = u0.len() as int;
        assert(ea.len() == w + 1 + ea2.len());
        assert(ea[0] == u0[0]);
        assert forall|i: int|
            0 <= i < ea.len() && is_space_char(#[trigger] ea[i]) implies ea[i] == o.separator by {
            if i < w {
                assert(ea[i] == u0[i]);
            } else if i > w {
                assert(ea[i] == ea2[i - w - 1]);
            }
        }
        assert forall|i: int|
            0 <= i < ea.len() - 1 && #[trigger] ea[i] == o.separator implies ea[i + 1]
                != o.separator && !is_space_char(ea[i + 1]) by {
            if i < w {
                assert(ea[i] == u0[i]);
            } else if i == w {
                assert(ea[i + 1] == ea2[0]);
            } else {
                assert(ea[i] == ea2[i - w - 1]);
                assert(ea[i + 1] == ea2[i - w]);
            }
        }
    }
}

proof fn lemma_collapse_neutral(s: Seq<char>, sep: char)
    requires
        forall|i: int|
            0 <= i < s.len() && is_space_char(#[trigger] s[i]) ==> s[i] == sep && (i + 1 == s.len()
                || !is_space_char(s[i + 1])),
    ensures
        collapse_ws(s, sep) == s,
    decreases s.len(),
{
    if s.len() > 0 {
        let tail = s.drop_first();
        assert forall|i: int|
            0 <= i < tail.len() && is_space_char(#[trigger] tail[i]) implies tail[i] == sep && (i
                + 1 == tail.len() || !is_space_char(tail[i + 1])) by {
            assert(tail[i] == s[i + 1]);
            if i + 1 < tail.len() {
                assert(tail[i + 1] == s[i + 2]);
            }
        }
        lemma_collapse_neutral(tail, sep);
        if is_space_char(s[0]) {
            assert(s[0] == sep);
            assert(!(s.len() > 1 && is_space_char(s[1])));
            assert(collapse_ws(s, sep) == seq![sep] + tail);
            assert(seq![sep] + tail =~= s);
        } else {
            assert(collapse_ws(s, sep) == seq![s[0]] + tail);
            assert(seq![s[0]] + tail =~= s);
        }
    }
}

proof fn lemma_decode_join(n: Seq<char>, o: Options)
    requires
        n.len() > 0,
        forall|i: int| 0 <= i < n.len() ==> unit_ok(#[trigger] n[i], o),
    ensures
        decode_units(encode_all(n, o).drop_last(), Seq::empty(), o) == n,
    decreases n.len(),
{
    let u0 = encode_unit(n[0], o);
    let ea = encode_all(n, o);
    assert(unit_ok(n[0], o));
    if n.len() == 1 {
        assert(encode_all(n.drop_first(), o) == Seq::<char>::empty());
        assert(ea =~= u0 + seq![o.separator]);
        assert(ea.drop_last() =~= u0);
        lemma_decode_units_acc(u0, Seq::empty(), Seq::empty(), o);
        assert(u0 + Seq::<char>::empty() =~= u0);
        assert(Seq::<char>::empty() + u0 =~= u0);
        assert(decode_units(Seq::empty(), u0, o) == decode_unit(u0, o));
        assert(decode_units(ea.drop_last(), Seq::empty(), o) == seq![n[0]]);
        assert(seq![n[0]] =~= n);
    } else {
        let tail = n.drop_first();
        assert forall|i: int| 0 <= i < tail.len() implies unit_ok(#[trigger] tail[i], o) by {
            assert(tail[i] == n[i + 1]);
        }
        let ea2 = encode_all(tail, o);
        lemma_encode_all_last(tail, o);
        let m2 = ea2.drop_last();
        assert(ea == u0 + seq![o.separator] + ea2);
        assert(ea.drop_last() =~= u0 + (seq![o.separator] + m2));
        lemma_decode_units_acc(u0, seq![o.separator] + m2, Seq::empty(), o);
        assert(Seq::<char>::empty() + u0 =~= u0);
        let srest = seq![o.separator] + m2;
        assert(srest[0] == o.separator);
        assert(srest.drop_first() =~= m2);
        assert(decode_units(srest, u0, o) == decode_unit(u0, o) + decode_units(
            m2,
            Seq::empty(),
            o,
        ));
        lemma_decode_join(tail, o);
        assert(decode_units(ea.drop_last(), Seq::empty(), o) == seq![n[0]] + tail);
        assert(seq![n[0]] + tail =~= n);
    }
}

// ---------------------------------------------------------------------
// The round trip
// ---------------------------------------------------------------------

/// Encoding then decoding restores the normalized input, whenever the
/// priority script's table covers the text and has no internal
/// pattern collisions. The text may hold letters of the priority
/// script and whitespace; the normalized form is the text with
/// whitespace runs collapsed to the separator, the ends trimmed, and
/// every letter folded to upper case.
pub proof fn lemma_encode_decode_round_trip(text: Seq<char>, o: Options)
    requires
        o.wf(),
        !is_space_char(o.dot),
        !is_space_char(o.dash),
        !is_space_char(o.space),
        o.space != '0',
        o.space != '1',
        fold_char(o.separator) == seq![o.separator],
        patterns_injective(table_view(script_pairs(o.priority))),
        !tbl_has_key(table_view(script_pairs(o.priority)), o.separator),
        forall|i: int|
            0 <= i < text.len() ==> is_space_char(#[trigger] text[i]) || priority_letter(
                text[i],
                o,
            ),
    ensures
        spec_decode(spec_encode(text, o), o) == spec_normalize(text, o),
{
    let n = spec_normalize(text, o);
    lemma_normalize_classes(text, o);
    assert forall|i: int| 0 <= i < n.len() implies unit_ok(#[trigger] n[i], o) by {
        if n[i] == o.separator {
            lemma_unit_sep(o);
        } else {
            lemma_unit_letter(n[i], o);
        }
    }
    if n.len() == 0 {
        lemma_decode_empty(o);
    } else {
        let ea = encode_all(n, o);
        let m = ea.drop_last();
        assert(spec_encode(text, o) == m);
        lemma_encode_all_structure(n, o);
        // the encoded string survives the decoder's preprocessing
        assert forall|i: int|
            0 <= i < m.len() && is_space_char(#[trigger] m[i]) implies m[i] == o.separator && (i
                + 1 == m.len() || !is_space_char(m[i + 1])) by {
            assert(m[i] == ea[i]);
            if i + 1 < m.len() {
                assert(m[i + 1] == ea[i + 1]);
            }
        }
        lemma_collapse_neutral(m, o.separator);
        assert(m.len() > 0);
        assert(m[0] == ea[0]);
        assert(trim_leading(m, o.separator) == m);
        assert(m.last() == ea[m.len() - 1]);
        if m.last() == o.separator {
            assert(ea[m.len() - 1] == o.separator && m.len() - 1 < ea.len() - 1);
            assert(ea[m.len() as int] == o.separator);
            assert(false);
        }
        assert(trim_trailing(m, o.separator) == m);
        lemma_decode_join(n, o);
        assert(spec_decode(m, o) == n);
    }
}

/// The round trip of tidy text: where the text also has no whitespace
/// runs, writes its word gaps as the separator glyph and neither
/// starts nor ends with a gap, decoding the encoded text yields
/// exactly the upper-case fold of the text.
pub proof fn lemma_round_trip_uppercase(text: Seq<char>, o: Options)
    requires
        o.wf(),
        !is_space_char(o.dot),
        !is_space_char(o.dash),
        !is_space_char(o.space),
        o.space != '0',
        o.space != '1',
        fold_char(o.separator) == seq![o.separator],
        patterns_injective(table_view(script_pairs(o.priority))),
        !tbl_has_key(table_view(script_pairs(o.priority)), o.separator),
        forall|i: int|
            0 <= i < text.len() ==> is_space_char(#[trigger] text[i]) || priority_letter(
                text[i],
                o,
            ),
        forall|i: int|
            0 <= i < text.len() && is_space_char(#[trigger] text[i]) ==> text[i] == o.separator
                && (i + 1 == text.len() || !is_space_char(text[i + 1])),
        text.len() > 0 ==> text[0] != o.separator && text[text.len() - 1] != o.separator,
    ensures
        spec_decode(spec_encode(text, o), o) == fold_seq(text),
{
    lemma_encode_decode_round_trip(text, o);
    lemma_collapse_neutral(text, o.separator);
    if text.len() == 0 {
        assert(trim_leading(text, o.separator) == text);
        assert(trim_trailing(text, o.separator) == text);
    } else {
        assert(trim_leading(text, o.separator) == text);
        assert(trim_trailing(text, o.separator) == text);
    }
}

// ---------------------------------------------------------------------
// Case insensitivity
// ---------------------------------------------------------------------

#[verifier::rlimit(50)]
proof fn lemma_fold_whitespace_fixed()
    ensures
        forall|c: char| is_space_char(c) ==> #[trigger] fold_char(c) == seq![c],
{
    assert forall|c: char| is_space_char(c) implies #[trigger] fold_char(c) == seq![c] by {
        assert(upper_char(c) == c);
        assert(fold_char(c) =~= seq![c]);
    }
}

#[verifier::rlimit(50)]
proof fn lemma_fold_nonspace()
    ensures
        forall|c: char| #[trigger] fold_char(c).len() > 0,
        forall|c: char, k: int|
            !is_space_char(c) && 0 <= k < fold_char(c).len() ==> !is_space_char(
                #[trigger] fold_char(c)[k],
            ),
{
    assert forall|c: char, k: int|
        !is_space_char(c) && 0 <= k < fold_char(c).len() implies !is_space_char(
        #[trigger] fold_char(c)[k],
    ) by {
        if c == '\u{df}' {
            assert(!is_space_char('S'));
        } else {
            assert(fold_char(c)[k] == upper_char(c));
            assert(!is_space_char(upper_char(c)));
        }
    }
}

#[verifier::rlimit(80)]
proof fn lemma_fold_outputs_fixed()
    ensures
        forall|c: char| #[trigger] fold_seq(fold_char(c)) == fold_char(c),
{
    assert forall|c: char| #[trigger] fold_seq(fold_char(c)) == fold_char(c) by {
        if c == '\u{df}' {
            assert(upper_char('S') == 'S');
            let ss = seq!['S', 'S'];
            assert(ss.drop_first() =~= seq!['S']);
            lemma_fold_singleton('S');
            assert(fold_char('S') =~= seq!['S']);
            assert(fold_seq(ss) == fold_char('S') + fold_seq(seq!['S']));
            assert(fold_seq(ss) =~= ss);
        } else {
            let u = upper_char(c);
            assert(upper_char(u) == u);
            assert(u != '\u{df}');
            lemma_fold_singleton(u);
            assert(fold_char(u) =~= seq![u]);
            assert(fold_char(c) =~= seq![u]);
        }
    }
}

proof fn lemma_fold_append(a: Seq<char>, b: Seq<char>)
    ensures
        fold_seq(a + b) == fold_seq(a) + fold_seq(b),
    decreases a.len(),
{
    if a.len() == 0 {
        assert(a + b =~= b);
        assert(fold_seq(a) + fold_seq(b) =~= fold_seq(b));
    } else {
        assert((a + b)[0] == a[0]);
        assert((a + b).drop_first() =~= a.drop_first() + b);
        lemma_fold_append(a.drop_first(), b);
        assert(fold_char(a[0]) + (fold_seq(a.drop_first()) + fold_seq(b)) =~= (fold_char(a[0])
            + fold_seq(a.drop_first())) + fold_seq(b));
    }
}

proof fn lemma_fold_singleton(c: char)
    ensures
        fold_seq(seq![c]) == fold_char(c),
{
    let s = seq![c];
    assert(s.drop_first() =~= Seq::<char>::empty());
    assert(fold_seq(Seq::<char>::empty()) == Seq::<char>::empty());
    assert(fold_seq(s) == fold_char(c) + fold_seq(Seq::<char>::empty()));
    assert(fold_char(c) + Seq::<char>::empty() =~= fold_char(c));
}

proof fn lemma_collapse_nonws_prefix(p: Seq<char>, t: Seq<char>, sep: char)
    requires
        forall|k: int| 0 <= k < p.len() ==> !is_space_char(#[trigger] p[k]),
    ensures
        collapse_ws(p + t, sep) == p + collapse_ws(t, sep),
    decreases p.len(),
{
    if p.len() == 0 {
        assert(p + t =~= t);
        assert(p + collapse_ws(t, sep) =~= collapse_ws(t, sep));
    } else {
        assert((p + t)[0] == p[0]);
        assert((p + t).drop_first() =~= p.drop_first() + t);
        assert forall|k: int| 0 <= k < p.drop_first().len() implies !is_space_char(
            #[trigger] p.drop_first()[k],
        ) by {
            assert(p.drop_first()[k] == p[k + 1]);
        }
        lemma_collapse_nonws_prefix(p.drop_first(), t, sep);
        assert(seq![p[0]] + (p.drop_first() + collapse_ws(t, sep)) =~= p + collapse_ws(t, sep));
    }
}

proof fn lemma_collapse_fold(s: Seq<char>, sep: char)
    requires
        fold_char(sep) == seq![sep],
    ensures
        collapse_ws(fold_seq(s), sep) == fold_seq(collapse_ws(s, sep)),
    decreases s.len(),
{
    lemma_fold_whitespace_fixed();
    lemma_fold_nonspace();
    if s.len() == 0 {
    } else {
        let tail = s.drop_first();
        lemma_collapse_fold(tail, sep);
        let fs = fold_seq(s);
        assert(fs == fold_char(s[0]) + fold_seq(tail));
        if is_space_char(s[0]) {
            assert(fold_char(s[0]) == seq![s[0]]);
            assert(fs =~= seq![s[0]] + fold_seq(tail));
            assert(fs[0] == s[0]);
            assert(fs.drop_first() =~= fold_seq(tail));
            if s.len() > 1 && is_space_char(s[1]) {
                assert(fold_seq(tail) == fold_char(s[1]) + fold_seq(tail.drop_first()));
                assert(fold_char(s[1]) == seq![s[1]]);
                assert(fold_seq(tail)[0] == s[1]);
                assert(fs[1] == s[1]);
                assert(fs.len() > 1);
                assert(collapse_ws(fs, sep) == collapse_ws(fold_seq(tail), sep));
                assert(collapse_ws(s, sep) == collapse_ws(tail, sep));
            } else if s.len() == 1 {
                assert(fold_seq(tail) == Seq::<char>::empty());
                assert(fs =~= seq![s[0]]);
                assert(collapse_ws(fs, sep) =~= seq![sep]);
                assert(collapse_ws(s, sep) == seq![sep] + collapse_ws(tail, sep));
                assert(fold_seq(collapse_ws(s, sep)) =~= fold_seq(seq![sep] + Seq::<char>::empty()));
                lemma_fold_singleton(sep);
                assert(seq![sep] + Seq::<char>::empty() =~= seq![sep]);
                assert(fold_seq(seq![sep]) == seq![sep]);
            } else {
                // a run ends here: the next character is not whitespace
                assert(!is_space_char(s[1]));
                assert(tail[0] == s[1]);
                assert(fold_seq(tail) == fold_char(s[1]) + fold_seq(tail.drop_first()));
                assert(fold_char(s[1]).len() > 0);
                assert(fold_seq(tail)[0] == fold_char(s[1])[0]);
                assert(!is_space_char(fold_seq(tail)[0]));
                assert(fs.len() > 1);
                assert(fs[1] == fold_seq(tail)[0]);
                assert(collapse_ws(fs, sep) == seq![sep] + collapse_ws(fold_seq(tail), sep));
                assert(collapse_ws(s, sep) == seq![sep] + collapse_ws(tail, sep));
                lemma_fold_append(seq![sep], collapse_ws(tail, sep));
                lemma_fold_singleton(sep);
                assert(fold_seq(seq![sep] + collapse_ws(tail, sep)) == seq![sep] + fold_seq(
                    collapse_ws(tail, sep),
                ));
            }
        } else {
            assert(forall|k: int|
                0 <= k < fold_char(s[0]).len() ==> !is_space_char(#[trigger] fold_char(s[0])[k]));
            lemma_collapse_nonws_prefix(fold_char(s[0]), fold_seq(tail), sep);
            assert(collapse_ws(fs, sep) == fold_char(s[0]) + collapse_ws(fold_seq(tail), sep));
            assert(collapse_ws(s, sep) == seq![s[0]] + collapse_ws(tail, sep));
            lemma_fold_append(seq![s[0]], collapse_ws(tail, sep));
            lemma_fold_singleton(s[0]);
            assert(fold_seq(seq![s[0]] + collapse_ws(tail, sep)) == fold_char(s[0]) + fold_seq(
                collapse_ws(tail, sep),
            ));
        }
    }
}

proof fn lemma_trim_leading_fold(u: Seq<char>, sep: char)
    requires
        fold_char(sep) == seq![sep],
        forall|c: char, k: int|
            c != sep && 0 <= k < fold_char(c).len() ==> #[trigger] fold_char(c)[k] != sep,
    ensures
        trim_leading(fold_seq(u), sep) == fold_seq(trim_leading(u, sep)),
    decreases u.len(),
{
    if u.len() == 0 {
    } else if u[0] == sep {
        assert(fold_seq(u) == seq![sep] + fold_seq(u.drop_first()));
        assert(fold_seq(u).len() > 0 && fold_seq(u)[0] == sep);
        assert(fold_seq(u).drop_first() =~= fold_seq(u.drop_first()));
        lemma_trim_leading_fold(u.drop_first(), sep);
    } else {
        assert(fold_char(u[0]).len() > 0);
        assert(fold_char(u[0])[0] != sep);
        assert(fold_seq(u) == fold_char(u[0]) + fold_seq(u.drop_first()));
        assert(fold_seq(u)[0] == fold_char(u[0])[0]);
        assert(trim_leading(fold_seq(u), sep) == fold_seq(u));
        assert(trim_leading(u, sep) == u);
    }
}

proof fn lemma_trim_trailing_fold(u: Seq<char>, sep: char)
    requires
        fold_char(sep) == seq![sep],
        forall|c: char, k: int|
            c != sep && 0 <= k < fold_char(c).len() ==> #[trigger] fold_char(c)[k] != sep,
    ensures
        trim_trailing(fold_seq(u), sep) == fold_seq(trim_trailing(u, sep)),
    decreases u.len(),
{
    if u.len() == 0 {
    } else {
        let front = u.drop_last();
        let c = u.last();
        assert(front + seq![c] =~= u);
        lemma_fold_append(front, seq![c]);
        lemma_fold_singleton(c);
        assert(fold_seq(u) == fold_seq(front) + fold_char(c));
        if c == sep {
            assert(fold_seq(u) =~= fold_seq(front) + seq![sep]);
            assert(fold_seq(u).len() > 0);
            assert(fold_seq(u).last() == sep);
            assert(fold_seq(u).drop_last() =~= fold_seq(front));
            lemma_trim_trailing_fold(front, sep);
            assert(trim_trailing(u, sep) == trim_trailing(front, sep));
        } else {
            assert(fold_char(c).len() > 0);
            assert(fold_char(c).last() != sep);
            assert(fold_seq(u).len() > 0);
            assert(fold_seq(u).last() == fold_char(c).last());
            assert(trim_trailing(fold_seq(u), sep) == fold_seq(u));
            assert(trim_trailing(u, sep) == u);
        }
    }
}

proof fn lemma_fold_idempotent(s: Seq<char>)
    ensures
        fold_seq(fold_seq(s)) == fold_seq(s),
    decreases s.len(),
{
    lemma_fold_outputs_fixed();
    if s.len() > 0 {
        lemma_fold_idempotent(s.drop_first());
        assert(fold_seq(s) == fold_char(s[0]) + fold_seq(s.drop_first()));
        lemma_fold_append(fold_char(s[0]), fold_seq(s.drop_first()));
    }
}

/// Encoding is insensitive to character case: a text and its
/// upper-case fold encode to the same Morse string, whenever the case
/// fold does not touch the separator glyph (as it never does for a
/// whitespace separator).
pub proof fn lemma_encode_case_insensitive(text: Seq<char>, o: Options)
    requires
        fold_char(o.separator) == seq![o.separator],
        forall|c: char, k: int|
            c != o.separator && 0 <= k < fold_char(c).len() ==> #[trigger] fold_char(c)[k]
                != o.separator,
    ensures
        spec_encode(fold_seq(text), o) == spec_encode(text, o),
{
    let sep = o.separator;
    let w = collapse_ws(text, sep);
    lemma_collapse_fold(text, sep);
    assert(collapse_ws(fold_seq(text), sep) == fold_seq(w));
    lemma_trim_leading_fold(w, sep);
    lemma_trim_trailing_fold(trim_leading(w, sep), sep);
    assert(trim_separators(fold_seq(w), sep) == fold_seq(trim_separators(w, sep)));
    lemma_fold_idempotent(trim_separators(w, sep));
    assert(spec_normalize(fold_seq(text), o) == spec_normalize(text, o));
}

/// Case insensitivity for every configuration whose separator glyph is
/// whitespace, the default blank among them.
pub proof fn lemma_case_insensitive_whitespace_separator(text: Seq<char>, o: Options)
    requires
        is_space_char(o.separator),
    ensures
        spec_encode(fold_seq(text), o) == spec_encode(text, o),
{
    lemma_fold_whitespace_fixed();
    lemma_fold_nonspace();
    assert forall|c: char, k: int|
        c != o.separator && 0 <= k < fold_char(c).len() implies #[trigger] fold_char(c)[k]
            != o.separator by {
        if is_space_char(c) {
            assert(fold_char(c) == seq![c]);
        } else {
            assert(!is_space_char(fold_char(c)[k]));
        }
    }
    lemma_encode_case_insensitive(text, o);
}

// ---------------------------------------------------------------------
// Glyph substitution
// ---------------------------------------------------------------------

/// The symbol substitution between two configurations: each glyph of
/// the first maps to the corresponding glyph of the second, every
/// other character is unchanged.
pub open spec fn glyph_subst(c: char, o1: Options, o2: Options) -> char {
    if c == o1.dot {
        o2.dot
    } else if c == o1.dash {
        o2.dash
    } else if c == o1.separator {
        o2.separator
    } else if c == o1.space {
        o2.space
    } else {
        c
    }
}

/// The substitution applied to a whole string.
pub open spec fn glyph_subst_seq(s: Seq<char>, o1: Options, o2: Options) -> Seq<char> {
    s.map_values(|c: char| glyph_subst(c, o1, o2))
}

spec fn sep_subst(c: char, sep1: char, sep2: char) -> char {
    if c == sep1 {
        sep2
    } else {
        c
    }
}

spec fn sep_subst_seq(s: Seq<char>, sep1: char, sep2: char) -> Seq<char> {
    s.map_values(|c: char| sep_subst(c, sep1, sep2))
}

proof fn lemma_collapse_sep_subst(s: Seq<char>, sep1: char, sep2: char)
    requires
        forall|i: int|
            0 <= i < s.len() && !is_space_char(#[trigger] s[i]) ==> s[i] != sep1 && s[i] != sep2,
    ensures
        collapse_ws(s, sep2) == sep_subst_seq(collapse_ws(s, sep1), sep1, sep2),
    decreases s.len(),
{
    if s.len() == 0 {
        assert(sep_subst_seq(Seq::empty(), sep1, sep2) =~= Seq::<char>::empty());
    } else {
        let tail = s.drop_first();
        assert forall|i: int|
            0 <= i < tail.len() && !is_space_char(#[trigger] tail[i]) implies tail[i] != sep1
                && tail[i] != sep2 by {
            assert(tail[i] == s[i + 1]);
        }
        lemma_collapse_sep_subst(tail, sep1, sep2);
        if is_space_char(s[0]) && !(s.len() > 1 && is_space_char(s[1])) {
            assert(collapse_ws(s, sep1) == seq![sep1] + collapse_ws(tail, sep1));
            assert(collapse_ws(s, sep2) == seq![sep2] + collapse_ws(tail, sep2));
            assert(sep_subst_seq(seq![sep1] + collapse_ws(tail, sep1), sep1, sep2) =~= seq![sep2]
                + sep_subst_seq(collapse_ws(tail, sep1), sep1, sep2));
        } else if !is_space_char(s[0]) {
            assert(collapse_ws(s, sep1) == seq![s[0]] + collapse_ws(tail, sep1));
            assert(collapse_ws(s, sep2) == seq![s[0]] + collapse_ws(tail, sep2));
            assert(sep_subst_seq(seq![s[0]] + collapse_ws(tail, sep1), sep1, sep2) =~= seq![s[0]]
                + sep_subst_seq(collapse_ws(tail, sep1), sep1, sep2));
        }
    }
}

proof fn lemma_trim_leading_sep_subst(u: Seq<char>, sep1: char, sep2: char)
    requires
        forall|k: int| 0 <= k < u.len() ==> #[trigger] u[k] == sep1 || u[k] != sep2,
    ensures
        trim_leading(sep_subst_seq(u, sep1, sep2), sep2) == sep_subst_seq(
            trim_leading(u, sep1),
            sep1,
            sep2,
        ),
    decreases u.len(),
{
    let mu = sep_subst_seq(u, sep1, sep2);
    if u.len() == 0 {
        assert(mu =~= Seq::<char>::empty());
    } else if u[0] == sep1 {
        assert(mu[0] == sep2);
        assert(mu.drop_first() =~= sep_subst_seq(u.drop_first(), sep1, sep2));
        assert forall|k: int|
            0 <= k < u.drop_first().len() implies #[trigger] u.drop_first()[k] == sep1
                || u.drop_first()[k] != sep2 by {
            assert(u.drop_first()[k] == u[k + 1]);
        }
        lemma_trim_leading_sep_subst(u.drop_first(), sep1, sep2);
    } else {
        assert(mu[0] == u[0]);
        assert(mu[0] != sep2);
        assert(trim_leading(mu, sep2) == mu);
        assert(trim_leading(u, sep1) == u);
    }
}

proof fn lemma_trim_trailing_sep_subst(u: Seq<char>, sep1: char, sep2: char)
    requires
        forall|k: int| 0 <= k < u.len() ==> #[trigger] u[k] == sep1 || u[k] != sep2,
    ensures
        trim_trailing(sep_subst_seq(u, sep1, sep2), sep2) == sep_subst_seq(
            trim_trailing(u, sep1),
            sep1,
            sep2,
        ),
    decreases u.len(),
{
    let mu = sep_subst_seq(u, sep1, sep2);
    if u.len() == 0 {
        assert(mu =~= Seq::<char>::empty());
    } else if u.last() == sep1 {
        assert(mu.last() == sep2);
        assert(mu.drop_last() =~= sep_subst_seq(u.drop_last(), sep1, sep2));
        assert forall|k: int|
            0 <= k < u.drop_last().len() implies #[trigger] u.drop_last()[k] == sep1
                || u.drop_last()[k] != sep2 by {
            assert(u.drop_last()[k] == u[k]);
        }
        lemma_trim_trailing_sep_subst(u.drop_last(), sep1, sep2);
    } else {
        assert(mu.last() == u.last());
        assert(mu.last() != sep2);
        assert(trim_trailing(mu, sep2) == mu);
        assert(trim_trailing(u, sep1) == u);
    }
}

proof fn lemma_fold_sep_subst(u: Seq<char>, sep1: char, sep2: char)
    requires
        fold_char(sep1) == seq![sep1],
        fold_char(sep2) == seq![sep2],
        forall|c: char, k: int|
            c != sep1 && 0 <= k < fold_char(c).len() ==> #[trigger] fold_char(c)[k] != sep1,
        forall|k: int| 0 <= k < u.len() ==> #[trigger] u[k] == sep1 || u[k] != sep2,
    ensures
        fold_seq(sep_subst_seq(u, sep1, sep2)) == sep_subst_seq(fold_seq(u), sep1, sep2),
    decreases u.len(),
{
    let mu = sep_subst_seq(u, sep1, sep2);
    if u.len() == 0 {
        assert(mu =~= Seq::<char>::empty());
        assert(sep_subst_seq(Seq::empty(), sep1, sep2) =~= Seq::<char>::empty());
    } else {
        assert forall|k: int|
            0 <= k < u.drop_first().len() implies #[trigger] u.drop_first()[k] == sep1
                || u.drop_first()[k] != sep2 by {
            assert(u.drop_first()[k] == u[k + 1]);
        }
        lemma_fold_sep_subst(u.drop_first(), sep1, sep2);
        assert(mu[0] == sep_subst(u[0], sep1, sep2));
        assert(mu.drop_first() =~= sep_subst_seq(u.drop_first(), sep1, sep2));
        assert(fold_seq(mu) == fold_char(mu[0]) + fold_seq(mu.drop_first()));
        assert(fold_seq(u) == fold_char(u[0]) + fold_seq(u.drop_first()));
        if u[0] == sep1 {
            assert(mu[0] == sep2);
            assert(sep_subst_seq(fold_seq(u), sep1, sep2) =~= seq![sep2] + sep_subst_seq(
                fold_seq(u.drop_first()),
                sep1,
                sep2,
            ));
        } else {
            assert(mu[0] == u[0]);
            assert(forall|k: int|
                0 <= k < fold_char(u[0]).len() ==> #[trigger] fold_char(u[0])[k] != sep1);
            assert(sep_subst_seq(fold_seq(u), sep1, sep2) =~= fold_char(u[0]) + sep_subst_seq(
                fold_seq(u.drop_first()),
                sep1,
                sep2,
            ));
        }
    }
}

proof fn lemma_collapse_chars_subst(s: Seq<char>, sep1: char, sep2: char)
    requires
        forall|i: int|
            0 <= i < s.len() && !is_space_char(#[trigger] s[i]) ==> s[i] != sep1 && s[i] != sep2,
    ensures
        forall|k: int|
            0 <= k < collapse_ws(s, sep1).len() ==> #[trigger] collapse_ws(s, sep1)[k] == sep1 || (
            collapse_ws(s, sep1)[k] != sep1 && collapse_ws(s, sep1)[k] != sep2),
    decreases s.len(),
{
    if s.len() > 0 {
        let tail = s.drop_first();
        assert forall|i: int|
            0 <= i < tail.len() && !is_space_char(#[trigger] tail[i]) implies tail[i] != sep1
                && tail[i] != sep2 by {
            assert(tail[i] == s[i + 1]);
        }
        lemma_collapse_chars_subst(tail, sep1, sep2);
        let ct = collapse_ws(tail, sep1);
        if is_space_char(s[0]) && !(s.len() > 1 && is_space_char(s[1])) {
            assert forall|k: int|
                0 <= k < collapse_ws(s, sep1).len() implies #[trigger] collapse_ws(s, sep1)[k]
                    == sep1 || (collapse_ws(s, sep1)[k] != sep1 && collapse_ws(s, sep1)[k]
                    != sep2) by {
                if k > 0 {
                    assert(collapse_ws(s, sep1)[k] == ct[k - 1]);
                }
            }
        } else if !is_space_char(s[0]) {
            assert forall|k: int|
                0 <= k < collapse_ws(s, sep1).len() implies #[trigger] collapse_ws(s, sep1)[k]
                    == sep1 || (collapse_ws(s, sep1)[k] != sep1 && collapse_ws(s, sep1)[k]
                    != sep2) by {
                if k > 0 {
                    assert(collapse_ws(s, sep1)[k] == ct[k - 1]);
                } else {
                    assert(collapse_ws(s, sep1)[0] == s[0]);
                }
            }
        }
    }
}

proof fn lemma_norm_sep_subst(text: Seq<char>, o1: Options, o2: Options)
    requires
        fold_char(o1.separator) == seq![o1.separator],
        fold_char(o2.separator) == seq![o2.separator],
        forall|c: char, k: int|
            c != o1.separator && 0 <= k < fold_char(c).len() ==> #[trigger] fold_char(c)[k]
                != o1.separator,
        forall|i: int|
            0 <= i < text.len() && !is_space_char(#[trigger] text[i]) ==> text[i] != o1.separator
                && text[i] != o2.separator,
    ensures
        spec_normalize(text, o2) == sep_subst_seq(spec_normalize(text, o1), o1.separator, o2.separator),
{
    let sep1 = o1.separator;
    let sep2 = o2.separator;
    let w = collapse_ws(text, sep1);
    lemma_collapse_sep_subst(text, sep1, sep2);
    lemma_collapse_chars_subst(text, sep1, sep2);
    lemma_trim_leading_sep_subst(w, sep1, sep2);
    let w1 = trim_leading(w, sep1);
    lemma_trim_leading_suffix(w, sep1);
    let m1 = choose|m: int| 0 <= m <= w.len() && trim_leading(w, sep1) == w.skip(m);
    assert forall|k: int| 0 <= k < w1.len() implies #[trigger] w1[k] == sep1 || (w1[k] != sep1
        && w1[k] != sep2) by {
        assert(w1[k] == w[k + m1]);
    }
    lemma_trim_trailing_sep_subst(w1, sep1, sep2);
    let w2 = trim_trailing(w1, sep1);
    lemma_trim_trailing_prefix(w1, sep1);
    let m2 = choose|m: int| 0 <= m <= w1.len() && trim_trailing(w1, sep1) == w1.take(m);
    assert forall|k: int| 0 <= k < w2.len() implies #[trigger] w2[k] == sep1 || (w2[k] != sep1
        && w2[k] != sep2) by {
        assert(w2[k] == w1[k]);
    }
    lemma_fold_sep_subst(w2, sep1, sep2);
    assert(trim_separators(collapse_ws(text, sep2), sep2) == sep_subst_seq(w2, sep1, sep2));
}

proof fn lemma_unit_subst(c: char, o1: Options, o2: Options)
    requires
        o1.wf(),
        o2.wf(),
        o1.priority == o2.priority,
        c != o1.separator,
        c != o2.separator,
        lookup_pattern(merged_canonical(o1), c).is_some(),
    ensures
        encode_unit(c, o2) == glyph_subst_seq(encode_unit(c, o1), o1, o2),
{
    let a = table_view(script_pairs(o1.priority));
    let s1 = seq![(o1.separator, seq![o1.space])];
    let s2 = seq![(o2.separator, seq![o2.space])];
    let b = base_entries();
    let mc1 = merged_canonical(o1);
    let mc2 = merged_canonical(o2);
    lemma_lookup_add(a, s1, c);
    lemma_lookup_add(a + s1, b, c);
    lemma_lookup_add(a, s2, c);
    lemma_lookup_add(a + s2, b, c);
    assert(s1.drop_first() =~= Seq::<(char, Seq<char>)>::empty());
    assert(s2.drop_first() =~= Seq::<(char, Seq<char>)>::empty());
    assert(lookup_pattern(Seq::<(char, Seq<char>)>::empty(), c) == None::<Seq<char>>);
    assert(lookup_pattern(s1, c) == None::<Seq<char>>);
    assert(lookup_pattern(s2, c) == None::<Seq<char>>);
    assert(lookup_pattern(mc1, c) == lookup_pattern(mc2, c));
    let p = lookup_pattern(mc1, c).unwrap();
    assert(lookup_pattern(mc1, c) == Some(p));
    // the pattern comes from a script table and is well formed
    lemma_table_view_wf(script_pairs(o1.priority));
    lemma_base_wf();
    if lookup_pattern(a, c).is_some() {
        lemma_lookup_entry(a, c);
        assert(pattern_wf(p));
    } else {
        assert(lookup_pattern(b, c) == Some(p));
        lemma_lookup_entry(b, c);
        assert(pattern_wf(p));
    }
    lemma_lookup_rendered(mc1, o1, c);
    lemma_lookup_rendered(mc2, o2, c);
    assert(encode_unit(c, o1) == render_pattern(p, o1));
    assert(encode_unit(c, o2) == render_pattern(p, o2));
    assert forall|k: int| 0 <= k < p.len() implies glyph_subst(
        render_pattern(p, o1)[k],
        o1,
        o2,
    ) == render_pattern(p, o2)[k] by {
        assert(p[k] == '0' || p[k] == '1');
    }
    assert(render_pattern(p, o2) =~= glyph_subst_seq(render_pattern(p, o1), o1, o2));
}

proof fn lemma_encode_all_subst(n: Seq<char>, o1: Options, o2: Options)
    requires
        o1.wf(),
        o2.wf(),
        forall|i: int|
            0 <= i < n.len() ==> encode_unit(sep_subst(#[trigger] n[i], o1.separator, o2.separator), o2)
                == glyph_subst_seq(encode_unit(n[i], o1), o1, o2),
    ensures
        encode_all(sep_subst_seq(n, o1.separator, o2.separator), o2) == glyph_subst_seq(
            encode_all(n, o1),
            o1,
            o2,
        ),
    decreases n.len(),
{
    let mn = sep_subst_seq(n, o1.separator, o2.separator);
    if n.len() == 0 {
        assert(mn =~= Seq::<char>::empty());
        assert(glyph_subst_seq(Seq::empty(), o1, o2) =~= Seq::<char>::empty());
    } else {
        assert forall|i: int|
            0 <= i < n.drop_first().len() implies encode_unit(
            sep_subst(#[trigger] n.drop_first()[i], o1.separator, o2.separator),
            o2,
        ) == glyph_subst_seq(encode_unit(n.drop_first()[i], o1), o1, o2) by {
            assert(n.drop_first()[i] == n[i + 1]);
        }
        lemma_encode_all_subst(n.drop_first(), o1, o2);
        assert(mn[0] == sep_subst(n[0], o1.separator, o2.separator));
        assert(mn.drop_first() =~= sep_subst_seq(n.drop_first(), o1.separator, o2.separator));
        assert(encode_all(mn, o2) == encode_unit(mn[0], o2) + seq![o2.separator] + encode_all(
            mn.drop_first(),
            o2,
        ));
        assert(glyph_subst(o1.separator, o1, o2) == o2.separator);
        assert(glyph_subst_seq(
            encode_unit(n[0], o1) + seq![o1.separator] + encode_all(n.drop_first(), o1),
            o1,
            o2,
        ) =~= glyph_subst_seq(encode_unit(n[0], o1), o1, o2) + seq![o2.separator]
            + glyph_subst_seq(encode_all(n.drop_first(), o1), o1, o2));
    }
}

/// Re-encoding the same text under two configurations that differ only
/// in their glyphs yields outputs that are letter-for-letter
/// substitution images of one another: rendering is presentational.
/// The text may not use either separator glyph as a letter, the case
/// fold may not touch either separator, and every normalized character
/// must be one the tables map.
pub proof fn lemma_encode_glyph_substitution(text: Seq<char>, o1: Options, o2: Options)
    requires
        o1.wf(),
        o2.wf(),
        o1.priority == o2.priority,
        o1.space != '0',
        o1.space != '1',
        o2.space != '0',
        o2.space != '1',
        fold_char(o1.separator) == seq![o1.separator],
        fold_char(o2.separator) == seq![o2.separator],
        forall|c: char, k: int|
            c != o1.separator && 0 <= k < fold_char(c).len() ==> #[trigger] fold_char(c)[k]
                != o1.separator,
        forall|c: char, k: int|
            c != o2.separator && 0 <= k < fold_char(c).len() ==> #[trigger] fold_char(c)[k]
                != o2.separator,
        !tbl_has_key(table_view(script_pairs(o1.priority)), o1.separator),
        !tbl_has_key(table_view(script_pairs(o1.priority)), o2.separator),
        forall|i: int|
            0 <= i < text.len() && !is_space_char(#[trigger] text[i]) ==> text[i] != o1.separator
                && text[i] != o2.separator,
        forall|k: int|
            0 <= k < spec_normalize(text, o1).len() ==> #[trigger] spec_normalize(text, o1)[k]
                == o1.separator || lookup_pattern(
                merged_canonical(o1),
                spec_normalize(text, o1)[k],
            ).is_some(),
    ensures
        spec_encode(text, o2) == glyph_subst_seq(spec_encode(text, o1), o1, o2),
{
    let sep1 = o1.separator;
    let sep2 = o2.separator;
    let n1 = spec_normalize(text, o1);
    let n2 = spec_normalize(text, o2);
    lemma_norm_sep_subst(text, o1, o2);
    assert(n2 == sep_subst_seq(n1, sep1, sep2));
    // the characters of the normalized text are the separator or
    // letters that avoid both separators
    let w = collapse_ws(text, sep1);
    lemma_collapse_chars_subst(text, sep1, sep2);
    lemma_trim_leading_suffix(w, sep1);
    let m1 = choose|m: int| 0 <= m <= w.len() && trim_leading(w, sep1) == w.skip(m);
    let w1 = trim_leading(w, sep1);
    assert forall|k: int| 0 <= k < w1.len() implies #[trigger] w1[k] == sep1 || (w1[k] != sep1
        && w1[k] != sep2) by {
        assert(w1[k] == w[k + m1]);
    }
    lemma_trim_trailing_prefix(w1, sep1);
    let m2 = choose|m: int| 0 <= m <= w1.len() && trim_trailing(w1, sep1) == w1.take(m);
    let w2 = trim_trailing(w1, sep1);
    assert forall|k: int| 0 <= k < w2.len() implies #[trigger] w2[k] == sep1 || (w2[k] != sep1
        && w2[k] != sep2) by {
        assert(w2[k] == w1[k]);
    }
    assert(n1 == fold_seq(w2));
    assert forall|k: int| 0 <= k < n1.len() implies #[trigger] n1[k] == sep1 || (n1[k] != sep1
        && n1[k] != sep2) by {
        lemma_fold_char_index(w2, k, sep1, sep2);
    }
    // each unit of the second encoding is the substitution image of
    // the first's
    assert forall|i: int|
        0 <= i < n1.len() implies encode_unit(sep_subst(#[trigger] n1[i], sep1, sep2), o2)
            == glyph_subst_seq(encode_unit(n1[i], o1), o1, o2) by {
        if n1[i] == sep1 {
            lemma_unit_sep_forward(o1);
            lemma_unit_sep_forward(o2);
            assert(encode_unit(sep1, o1) == seq![o1.space]);
            assert(encode_unit(sep2, o2) == seq![o2.space]);
            assert(glyph_subst(o1.space, o1, o2) == o2.space);
            assert(glyph_subst_seq(seq![o1.space], o1, o2) =~= seq![o2.space]);
        } else {
            lemma_unit_subst(n1[i], o1, o2);
        }
    }
    lemma_encode_all_subst(n1, o1, o2);
    if n1.len() == 0 {
        assert(n2 =~= Seq::<char>::empty());
        assert(glyph_subst_seq(Seq::empty(), o1, o2) =~= Seq::<char>::empty());
    } else {
        assert(n2.len() > 0);
        lemma_encode_all_last(n1, o1);
        lemma_encode_all_last(n2, o2);
        assert(encode_all(n2, o2) == glyph_subst_seq(encode_all(n1, o1), o1, o2));
        assert(encode_all(n2, o2).drop_last() =~= glyph_subst_seq(
            encode_all(n1, o1).drop_last(),
            o1,
            o2,
        ));
    }
}

proof fn lemma_fold_char_index(w: Seq<char>, k: int, sep1: char, sep2: char)
    requires
        fold_char(sep1) == seq![sep1],
        forall|c: char, i: int|
            c != sep1 && 0 <= i < fold_char(c).len() ==> #[trigger] fold_char(c)[i] != sep1,
        forall|c: char, i: int|
            c != sep2 && 0 <= i < fold_char(c).len() ==> #[trigger] fold_char(c)[i] != sep2,
        forall|i: int| 0 <= i < w.len() ==> #[trigger] w[i] == sep1 || (w[i] != sep1 && w[i] != sep2),
        0 <= k < fold_seq(w).len(),
    ensures
        fold_seq(w)[k] == sep1 || (fold_seq(w)[k] != sep1 && fold_seq(w)[k] != sep2),
    decreases w.len(),
{
    assert(w.len() > 0);
    let fc = fold_char(w[0]);
    assert(fold_seq(w) == fc + fold_seq(w.drop_first()));
    if k < fc.len() {
        assert(fold_seq(w)[k] == fc[k]);
        if w[0] == sep1 {
            assert(fc == seq![sep1]);
            assert(fc[k] == sep1);
        } else {
            assert(fc[k] != sep1);
            assert(fc[k] != sep2);
        }
    } else {
        assert forall|i: int|
            0 <= i < w.drop_first().len() implies #[trigger] w.drop_first()[i] == sep1 || (
            w.drop_first()[i] != sep1 && w.drop_first()[i] != sep2) by {
            assert(w.drop_first()[i] == w[i + 1]);
        }
        lemma_fold_char_index(w.drop_first(), k - fc.len(), sep1, sep2);
        assert(fold_seq(w)[k] == fold_seq(w.drop_first())[k - fc.len()]);
    }
}

/// The forward half of the word-gap lemma under weaker hypotheses: the
/// separator encodes to the word-gap glyph.
proof fn lemma_unit_sep_forward(o: Options)
    requires
        o.space != '0',
        o.space != '1',
        !tbl_has_key(table_view(script_pairs(o.priority)), o.separator),
    ensures
        encode_unit(o.separator, o) == seq![o.space],
{
    let a = table_view(script_pairs(o.priority));
    let s = seq![(o.separator, seq![o.space])];
    let b = base_entries();
    let mc = merged_canonical(o);
    lemma_lookup_no_key(a, o.separator);
    lemma_lookup_add(a, s, o.separator);
    lemma_lookup_add(a + s, b, o.separator);
    assert(lookup_pattern(s, o.separator) == Some(seq![o.space]));
    assert(lookup_pattern(mc, o.separator) == Some(seq![o.space]));
    lemma_lookup_rendered(mc, o, o.separator);
    assert(render_pattern(seq![o.space], o) =~= seq![o.space]);
}

/// Glyph substitution for configurations whose separator glyphs are
/// whitespace, the default blank among them: the fold hypotheses and
/// the separator-avoidance of the text hold of themselves.
pub proof fn lemma_glyph_substitution_whitespace_separators(
    text: Seq<char>,
    o1: Options,
    o2: Options,
)
    requires
        o1.wf(),
        o2.wf(),
        o1.priority == o2.priority,
        o1.space != '0',
        o1.space != '1',
        o2.space != '0',
        o2.space != '1',
        is_space_char(o1.separator),
        is_space_char(o2.separator),
        !tbl_has_key(table_view(script_pairs(o1.priority)), o1.separator),
        !tbl_has_key(table_view(script_pairs(o1.priority)), o2.separator),
        forall|k: int|
            0 <= k < spec_normalize(text, o1).len() ==> #[trigger] spec_normalize(text, o1)[k]
                == o1.separator || lookup_pattern(
                merged_canonical(o1),
                spec_normalize(text, o1)[k],
            ).is_some(),
    ensures
        spec_encode(text, o2) == glyph_subst_seq(spec_encode(text, o1), o1, o2),
{
    lemma_fold_whitespace_fixed();
    lemma_fold_nonspace();
    assert(fold_char(o1.separator) == seq![o1.separator]);
    assert(fold_char(o2.separator) == seq![o2.separator]);
    assert forall|c: char, k: int|
        c != o1.separator && 0 <= k < fold_char(c).len() implies #[trigger] fold_char(c)[k]
            != o1.separator by {
        if is_space_char(c) {
            assert(fold_char(c) == seq![c]);
        } else {
            assert(!is_space_char(fold_char(c)[k]));
        }
    }
    assert forall|c: char, k: int|
        c != o2.separator && 0 <= k < fold_char(c).len() implies #[trigger] fold_char(c)[k]
            != o2.separator by {
        if is_space_char(c) {
            assert(fold_char(c) == seq![c]);
        } else {
            assert(!is_space_char(fold_char(c)[k]));
        }
    }
    lemma_encode_glyph_substitution(text, o1, o2);
}

// ---------------------------------------------------------------------
// The round trip under the default configuration
// ---------------------------------------------------------------------

/// A Latin letter, in either case.
pub open spec fn latin_letter(c: char) -> bool {
    ||| c == 'a'
    ||| c == 'b'
    ||| c == 'c'
    ||| c == 'd'
    ||| c == 'e'
    ||| c == 'f'
    ||| c == 'g'
    ||| c == 'h'
    ||| c == 'i'
    ||| c == 'j'
    ||| c == 'k'
    ||| c == 'l'
    ||| c == 'm'
    ||| c == 'n'
    ||| c == 'o'
    ||| c == 'p'
    ||| c == 'q'
    ||| c == 'r'
    ||| c == 's'
    ||| c == 't'
    ||| c == 'u'
    ||| c == 'v'
    ||| c == 'w'
    ||| c == 'x'
    ||| c == 'y'
    ||| c == 'z'
    ||| c == 'A'
    ||| c == 'B'
    ||| c == 'C'
    ||| c == 'D'
    ||| c == 'E'
    ||| c == 'F'
    ||| c == 'G'
    ||| c == 'H'
    ||| c == 'I'
    ||| c == 'J'
    ||| c == 'K'
    ||| c == 'L'
    ||| c == 'M'
    ||| c == 'N'
    ||| c == 'O'
    ||| c == 'P'
    ||| c == 'Q'
    ||| c == 'R'
    ||| c == 'S'
    ||| c == 'T'
    ||| c == 'U'
    ||| c == 'V'
    ||| c == 'W'
    ||| c == 'X'
    ||| c == 'Y'
    ||| c == 'Z'
}

#[verifier::rlimit(100)]
proof fn lemma_latin_table_facts()
    ensures
        patterns_injective(table_view(latin_pairs())),
        !tbl_has_key(table_view(latin_pairs()), ' '),
        forall|c: char| latin_letter(c) ==> tbl_has_key(table_view(latin_pairs()), upper_char(c)),
{
    let t = table_view(latin_pairs());
    reveal_strlit("01");
    reveal_strlit("1000");
    reveal_strlit("1010");
    reveal_strlit("100");
    reveal_strlit("0");
    reveal_strlit("0010");
    reveal_strlit("110");
    reveal_strlit("0000");
    reveal_strlit("00");
    reveal_strlit("0111");
    reveal_strlit("101");
    reveal_strlit("0100");
    reveal_strlit("11");
    reveal_strlit("10");
    reveal_strlit("111");
    reveal_strlit("0110");
    reveal_strlit("1101");
    reveal_strlit("010");
    reveal_strlit("000");
    reveal_strlit("1");
    reveal_strlit("001");
    reveal_strlit("0001");
    reveal_strlit("011");
    reveal_strlit("1001");
    reveal_strlit("1011");
    reveal_strlit("1100");
    assert(t.len() == 26);
    assert(t[0] == ('A', canonical_pattern("01"@)));
    assert(canonical_pattern("01"@) =~= seq!['0', '1']);
    assert(t[1] == ('B', canonical_pattern("1000"@)));
    assert(canonical_pattern("1000"@) =~= seq!['1', '0', '0', '0']);
    assert(t[2] == ('C', canonical_pattern("1010"@)));
    assert(canonical_pattern("1010"@) =~= seq!['1', '0', '1', '0']);
    assert(t[3] == ('D', canonical_pattern("100"@)));
    assert(canonical_pattern("100"@) =~= seq!['1', '0', '0']);
    assert(t[4] == ('E', canonical_pattern("0"@)));
    assert(canonical_pattern("0"@) =~= seq!['0']);
    assert(t[5] == ('F', canonical_pattern("0010"@)));
    assert(canonical_pattern("0010"@) =~= seq!['0', '0', '1', '0']);
    assert(t[6] == ('G', canonical_pattern("110"@)));
    assert(canonical_pattern("110"@) =~= seq!['1', '1', '0']);
    assert(t[7] == ('H', canonical_pattern("0000"@)));
    assert(canonical_pattern("0000"@) =~= seq!['0', '0', '0', '0']);
    assert(t[8] == ('I', canonical_pattern("00"@)));
    assert(canonical_pattern("00"@) =~= seq!['0', '0']);
    assert(t[9] == ('J', canonical_pattern("0111"@)));
    assert(canonical_pattern("0111"@) =~= seq!['0', '1', '1', '1']);
    assert(t[10] == ('K', canonical_pattern("101"@)));
    assert(canonical_pattern("101"@) =~= seq!['1', '0', '1']);
    assert(t[11] == ('L', canonical_pattern("0100"@)));
    assert(canonical_pattern("0100"@) =~= seq!['0', '1', '0', '0']);
    assert(t[12] == ('M', canonical_pattern("11"@)));
    assert(canonical_pattern("11"@) =~= seq!['1', '1']);
    assert(t[13] == ('N', canonical_pattern("10"@)));
    assert(canonical_pattern("10"@) =~= seq!['1', '0']);
    assert(t[14] == ('O', canonical_pattern("111"@)));
    assert(canonical_pattern("111"@) =~= seq!['1', '1', '1']);
    assert(t[15] == ('P', canonical_pattern("0110"@)));
    assert(canonical_pattern("0110"@) =~= seq!['0', '1', '1', '0']);
    assert(t[16] == ('Q', canonical_pattern("1101"@)));
    assert(canonical_pattern("1101"@) =~= seq!['1', '1', '0', '1']);
    assert(t[17] == ('R', canonical_pattern("010"@)));
    assert(canonical_pattern("010"@) =~= seq!['0', '1', '0']);
    assert(t[18] == ('S', canonical_pattern("000"@)));
    assert(canonical_pattern("000"@) =~= seq!['0', '0', '0']);
    assert(t[19] == ('T', canonical_pattern("1"@)));
    assert(canonical_pattern("1"@) =~= seq!['1']);
    assert(t[20] == ('U', canonical_pattern("001"@)));
    assert(canonical_pattern("001"@) =~= seq!['0', '0', '1']);
    assert(t[21] == ('V', canonical_pattern("0001"@)));
    assert(canonical_pattern("0001"@) =~= seq!['0', '0', '0', '1']);
    assert(t[22] == ('W', canonical_pattern("011"@)));
    assert(canonical_pattern("011"@) =~= seq!['0', '1', '1']);
    assert(t[23] == ('X', canonical_pattern("1001"@)));
    assert(canonical_pattern("1001"@) =~= seq!['1', '0', '0', '1']);
    assert(t[24] == ('Y', canonical_pattern("1011"@)));
    assert(canonical_pattern("1011"@) =~= seq!['1', '0', '1', '1']);
    assert(t[25] == ('Z', canonical_pattern("1100"@)));
    assert(canonical_pattern("1100"@) =~= seq!['1', '1', '0', '0']);
    assert(canonical_pattern("0"@).len() == 1);
    assert(canonical_pattern("0"@)[0] == '0');
    assert(canonical_pattern("00"@).len() == 2);
    assert(canonical_pattern("00"@)[0] == '0');
    assert(canonical_pattern("00"@)[1] == '0');
    assert(canonical_pattern("000"@).len() == 3);
    assert(canonical_pattern("000"@)[0] == '0');
    assert(canonical_pattern("000"@)[1] == '0');
    assert(canonical_pattern("000"@)[2] == '0');
    assert(canonical_pattern("0000"@).len() == 4);
    assert(canonical_pattern("0000"@)[0] == '0');
    assert(canonical_pattern("0000"@)[1] == '0');
    assert(canonical_pattern("0000"@)[2] == '0');
    assert(canonical_pattern("0000"@)[3] == '0');
    assert(canonical_pattern("0001"@).len() == 4);
    assert(canonical_pattern("0001"@)[0] == '0');
    assert(canonical_pattern("0001"@)[1] == '0');
    assert(canonical_pattern("0001"@)[2] == '0');
    assert(canonical_pattern("0001"@)[3] == '1');
    assert(canonical_pattern("001"@).len() == 3);
    assert(canonical_pattern("001"@)[0] == '0');
    assert(canonical_pattern("001"@)[1] == '0');
    assert(canonical_pattern("001"@)[2] == '1');
    assert(canonical_pattern("0010"@).len() == 4);
    assert(canonical_pattern("0010"@)[0] == '0');
    assert(canonical_pattern("0010"@)[1] == '0');
    assert(canonical_pattern("0010"@)[2] == '1');
    assert(canonical_pattern("0010"@)[3] == '0');
    assert(canonical_pattern("01"@).len() == 2);
    assert(canonical_pattern("01"@)[0] == '0');
    assert(canonical_pattern("01"@)[1] == '1');
    assert(canonical_pattern("010"@).len() == 3);
    assert(canonical_pattern("010"@)[0] == '0');
    assert(canonical_pattern("010"@)[1] == '1');
    assert(canonical_pattern("010"@)[2] == '0');
    assert(canonical_pattern("0100"@).len() == 4);
    assert(canonical_pattern("0100"@)[0] == '0');
    assert(canonical_pattern("0100"@)[1] == '1');
    assert(canonical_pattern("0100"@)[2] == '0');
    assert(canonical_pattern("0100"@)[3] == '0');
    assert(canonical_pattern("011"@).len() == 3);
    assert(canonical_pattern("011"@)[0] == '0');
    assert(canonical_pattern("011"@)[1] == '1');
    assert(canonical_pattern("011"@)[2] == '1');
    assert(canonical_pattern("0110"@).len() == 4);
    assert(canonical_pattern("0110"@)[0] == '0');
    assert(canonical_pattern("0110"@)[1] == '1');
    assert(canonical_pattern("0110"@)[2] == '1');
    assert(canonical_pattern("0110"@)[3] == '0');
    assert(canonical_pattern("0111"@).len() == 4);
    assert(canonical_pattern("0111"@)[0] == '0');
    assert(canonical_pattern("0111"@)[1] == '1');
    assert(canonical_pattern("0111"@)[2] == '1');
    assert(canonical_pattern("0111"@)[3] == '1');
    assert(canonical_pattern("1"@).len() == 1);
    assert(canonical_pattern("1"@)[0] == '1');
    assert(canonical_pattern("10"@).len() == 2);
    assert(canonical_pattern("10"@)[0] == '1');
    assert(canonical_pattern("10"@)[1] == '0');
    assert(canonical_pattern("100"@).len() == 3);
    assert(canonical_pattern("100"@)[0] == '1');
    assert(canonical_pattern("100"@)[1] == '0');
    assert(canonical_pattern("100"@)[2] == '0');
    assert(canonical_pattern("1000"@).len() == 4);
    assert(canonical_pattern("1000"@)[0] == '1');
    assert(canonical_pattern("1000"@)[1] == '0');
    assert(canonical_pattern("1000"@)[2] == '0');
    assert(canonical_pattern("1000"@)[3] == '0');
    assert(canonical_pattern("1001"@).len() == 4);
    assert(canonical_pattern("1001"@)[0] == '1');
    assert(canonical_pattern("1001"@)[1] == '0');
    assert(canonical_pattern("1001"@)[2] == '0');
    assert(canonical_pattern("1001"@)[3] == '1');
    assert(canonical_pattern("101"@).len() == 3);
    assert(canonical_pattern("101"@)[0] == '1');
    assert(canonical_pattern("101"@)[1] == '0');
    assert(canonical_pattern("101"@)[2] == '1');
    assert(canonical_pattern("1010"@).len() == 4);
    assert(canonical_pattern("1010"@)[0] == '1');
    assert(canonical_pattern("1010"@)[1] == '0');
    assert(canonical_pattern("1010"@)[2] == '1');
    assert(canonical_pattern("1010"@)[3] == '0');
    assert(canonical_pattern("1011"@).len() == 4);
    assert(canonical_pattern("1011"@)[0] == '1');
    assert(canonical_pattern("1011"@)[1] == '0');
    assert(canonical_pattern("1011"@)[2] == '1');
    assert(canonical_pattern("1011"@)[3] == '1');
    assert(canonical_pattern("11"@).len() == 2);
    assert(canonical_pattern("11"@)[0] == '1');
    assert(canonical_pattern("11"@)[1] == '1');
    assert(canonical_pattern("110"@).len() == 3);
    assert(canonical_pattern("110"@)[0] == '1');
    assert(canonical_pattern("110"@)[1] == '1');
    assert(canonical_pattern("110"@)[2] == '0');
    assert(canonical_pattern("1100"@).len() == 4);
    assert(canonical_pattern("1100"@)[0] == '1');
    assert(canonical_pattern("1100"@)[1] == '1');
    assert(canonical_pattern("1100"@)[2] == '0');
    assert(canonical_pattern("1100"@)[3] == '0');
    assert(canonical_pattern("1101"@).len() == 4);
    assert(canonical_pattern("1101"@)[0] == '1');
    assert(canonical_pattern("1101"@)[1] == '1');
    assert(canonical_pattern("1101"@)[2] == '0');
    assert(canonical_pattern("1101"@)[3] == '1');
    assert(canonical_pattern("111"@).len() == 3);
    assert(canonical_pattern("111"@)[0] == '1');
    assert(canonical_pattern("111"@)[1] == '1');
    assert(canonical_pattern("111"@)[2] == '1');
    assert(canonical_pattern("01"@) != canonical_pattern("1000"@));
    assert(canonical_pattern("01"@) != canonical_pattern("1010"@));
    assert(canonical_pattern("01"@) != canonical_pattern("100"@));
    assert(canonical_pattern("01"@) != canonical_pattern("0"@));
    assert(canonical_pattern("01"@) != canonical_pattern("0010"@));
    assert(canonical_pattern("01"@) != canonical_pattern("110"@));
    assert(canonical_pattern("01"@) != canonical_pattern("0000"@));
    assert(canonical_pattern("01"@) != canonical_pattern("00"@));
    assert(canonical_pattern("01"@) != canonical_pattern("0111"@));
    assert(canonical_pattern("01"@) != canonical_pattern("101"@));
    assert(canonical_pattern("01"@) != canonical_pattern("0100"@));
    assert(canonical_pattern("01"@) != canonical_pattern("11"@));
    assert(canonical_pattern("01"@) != canonical_pattern("10"@));
    assert(canonical_pattern("01"@) != canonical_pattern("111"@));
    assert(canonical_pattern("01"@) != canonical_pattern("0110"@));
    assert(canonical_pattern("01"@) != canonical_pattern("1101"@));
    assert(canonical_pattern("01"@) != canonical_pattern("010"@));
    assert(canonical_pattern("01"@) != canonical_pattern("000"@));
    assert(canonical_pattern("01"@) != canonical_pattern("1"@));
    assert(canonical_pattern("01"@) != canonical_pattern("001"@));
    assert(canonical_pattern("01"@) != canonical_pattern("0001"@));
    assert(canonical_pattern("01"@) != canonical_pattern("011"@));
    assert(canonical_pattern("01"@) != canonical_pattern("1001"@));
    assert(canonical_pattern("01"@) != canonical_pattern("1011"@));
    assert(canonical_pattern("01"@) != canonical_pattern("1100"@));
    assert(canonical_pattern("1000"@) != canonical_pattern("1010"@));
    assert(canonical_pattern("1000"@) != canonical_pattern("100"@));
    assert(canonical_pattern("1000"@) != canonical_pattern("0"@));
    assert(canonical_pattern("1000"@) != canonical_pattern("0010"@));
    assert(canonical_pattern("1000"@) != canonical_pattern("110"@));
    assert(canonical_pattern("1000"@) != canonical_pattern("0000"@));
    assert(canonical_pattern("1000"@) != canonical_pattern("00"@));
    assert(canonical_pattern("1000"@) != canonical_pattern("0111"@));
    assert(canonical_pattern("1000"@) != canonical_pattern("101"@));
    assert(canonical_pattern("1000"@) != canonical_pattern("0100"@));
    assert(canonical_pattern("1000"@) != canonical_pattern("11"@));
    assert(canonical_pattern("1000"@) != canonical_pattern("10"@));
    assert(canonical_pattern("1000"@) != canonical_pattern("111"@));
    assert(canonical_pattern("1000"@) != canonical_pattern("0110"@));
    assert(canonical_pattern("1000"@) != canonical_pattern("1101"@));
    assert(canonical_pattern("1000"@) != canonical_pattern("010"@));
    assert(canonical_pattern("1000"@) != canonical_pattern("000"@));
    assert(canonical_pattern("1000"@) != canonical_pattern("1"@));
    assert(canonical_pattern("1000"@) != canonical_pattern("001"@));
    assert(canonical_pattern("1000"@) != canonical_pattern("0001"@));
    assert(canonical_pattern("1000"@) != canonical_pattern("011"@));
    assert(canonical_pattern("1000"@) != canonical_pattern("1001"@));
    assert(canonical_pattern("1000"@) != canonical_pattern("1011"@));
    assert(canonical_pattern("1000"@) != canonical_pattern("1100"@));
    assert(canonical_pattern("1010"@) != canonical_pattern("100"@));
    assert(canonical_pattern("1010"@) != canonical_pattern("0"@));
    assert(canonical_pattern("1010"@) != canonical_pattern("0010"@));
    assert(canonical_pattern("1010"@) != canonical_pattern("110"@));
    assert(canonical_pattern("1010"@) != canonical_pattern("0000"@));
    assert(canonical_pattern("1010"@) != canonical_pattern("00"@));
    assert(canonical_pattern("1010"@) != canonical_pattern("0111"@));
    assert(canonical_pattern("1010"@) != canonical_pattern("101"@));
    assert(canonical_pattern("1010"@) != canonical_pattern("0100"@));
    assert(canonical_pattern("1010"@) != canonical_pattern("11"@));
    assert(canonical_pattern("1010"@) != canonical_pattern("10"@));
    assert(canonical_pattern("1010"@) != canonical_pattern("111"@));
    assert(canonical_pattern("1010"@) != canonical_pattern("0110"@));
    assert(canonical_pattern("1010"@) != canonical_pattern("1101"@));
    assert(canonical_pattern("1010"@) != canonical_pattern("010"@));
    assert(canonical_pattern("1010"@) != canonical_pattern("000"@));
    assert(canonical_pattern("1010"@) != canonical_pattern("1"@));
    assert(canonical_pattern("1010"@) != canonical_pattern("001"@));
    assert(canonical_pattern("1010"@) != canonical_pattern("0001"@));
    assert(canonical_pattern("1010"@) != canonical_pattern("011"@));
    assert(canonical_pattern("1010"@) != canonical_pattern("1001"@));
    assert(canonical_pattern("1010"@) != canonical_pattern("1011"@));
    assert(canonical_pattern("1010"@) != canonical_pattern("1100"@));
    assert(canonical_pattern("100"@) != canonical_pattern("0"@));
    assert(canonical_pattern("100"@) != canonical_pattern("0010"@));
    assert(canonical_pattern("100"@) != canonical_pattern("110"@));
    assert(canonical_pattern("100"@) != canonical_pattern("0000"@));
    assert(canonical_pattern("100"@) != canonical_pattern("00"@));
    assert(canonical_pattern("100"@) != canonical_pattern("0111"@));
    assert(canonical_pattern("100"@) != canonical_pattern("101"@));
    assert(canonical_pattern("100"@) != canonical_pattern("0100"@));
    assert(canonical_pattern("100"@) != canonical_pattern("11"@));
    assert(canonical_pattern("100"@) != canonical_pattern("10"@));
    assert(canonical_pattern("100"@) != canonical_pattern("111"@));
    assert(canonical_pattern("100"@) != canonical_pattern("0110"@));
    assert(canonical_pattern("100"@) != canonical_pattern("1101"@));
    assert(canonical_pattern("100"@) != canonical_pattern("010"@));
    assert(canonical_pattern("100"@) != canonical_pattern("000"@));
    assert(canonical_pattern("100"@) != canonical_pattern("1"@));
    assert(canonical_pattern("100"@) != canonical_pattern("001"@));
    assert(canonical_pattern("100"@) != canonical_pattern("0001"@));
    assert(canonical_pattern("100"@) != canonical_pattern("011"@));
    assert(canonical_pattern("100"@) != canonical_pattern("1001"@));
    assert(canonical_pattern("100"@) != canonical_pattern("1011"@));
    assert(canonical_pattern("100"@) != canonical_pattern("1100"@));
    assert(canonical_pattern("0"@) != canonical_pattern("0010"@));
    assert(canonical_pattern("0"@) != canonical_pattern("110"@));
    assert(canonical_pattern("0"@) != canonical_pattern("0000"@));
    assert(canonical_pattern("0"@) != canonical_pattern("00"@));
    assert(canonical_pattern("0"@) != canonical_pattern("0111"@));
    assert(canonical_pattern("0"@) != canonical_pattern("101"@));
    assert(canonical_pattern("0"@) != canonical_pattern("0100"@));
    assert(canonical_pattern("0"@) != canonical_pattern("11"@));
    assert(canonical_pattern("0"@) != canonical_pattern("10"@));
    assert(canonical_pattern("0"@) != canonical_pattern("111"@));
    assert(canonical_pattern("0"@) != canonical_pattern("0110"@));
    assert(canonical_pattern("0"@) != canonical_pattern("1101"@));
    assert(canonical_pattern("0"@) != canonical_pattern("010"@));
    assert(canonical_pattern("0"@) != canonical_pattern("000"@));
    assert(canonical_pattern("0"@) != canonical_pattern("1"@));
    assert(canonical_pattern("0"@) != canonical_pattern("001"@));
    assert(canonical_pattern("0"@) != canonical_pattern("0001"@));
    assert(canonical_pattern("0"@) != canonical_pattern("011"@));
    assert(canonical_pattern("0"@) != canonical_pattern("1001"@));
    assert(canonical_pattern("0"@) != canonical_pattern("1011"@));
    assert(canonical_pattern("0"@) != canonical_pattern("1100"@));
    assert(canonical_pattern("0010"@) != canonical_pattern("110"@));
    assert(canonical_pattern("0010"@) != canonical_pattern("0000"@));
    assert(canonical_pattern("0010"@) != canonical_pattern("00"@));
    assert(canonical_pattern("0010"@) != canonical_pattern("0111"@));
    assert(canonical_pattern("0010"@) != canonical_pattern("101"@));
    assert(canonical_pattern("0010"@) != canonical_pattern("0100"@));
    assert(canonical_pattern("0010"@) != canonical_pattern("11"@));
    assert(canonical_pattern("0010"@) != canonical_pattern("10"@));
    assert(canonical_pattern("0010"@) != canonical_pattern("111"@));
    assert(canonical_pattern("0010"@) != canonical_pattern("0110"@));
    assert(canonical_pattern("0010"@) != canonical_pattern("1101"@));
    assert(canonical_pattern("0010"@) != canonical_pattern("010"@));
    assert(canonical_pattern("0010"@) != canonical_pattern("000"@));
    assert(canonical_pattern("0010"@) != canonical_pattern("1"@));
    assert(canonical_pattern("0010"@) != canonical_pattern("001"@));
    assert(canonical_pattern("0010"@) != canonical_pattern("0001"@));
    assert(canonical_pattern("0010"@) != canonical_pattern("011"@));
    assert(canonical_pattern("0010"@) != canonical_pattern("1001"@));
    assert(canonical_pattern("0010"@) != canonical_pattern("1011"@));
    assert(canonical_pattern("0010"@) != canonical_pattern("1100"@));
    assert(canonical_pattern("110"@) != canonical_pattern("0000"@));
    assert(canonical_pattern("110"@) != canonical_pattern("00"@));
    assert(canonical_pattern("110"@) != canonical_pattern("0111"@));
    assert(canonical_pattern("110"@) != canonical_pattern("101"@));
    assert(canonical_pattern("110"@) != canonical_pattern("0100"@));
    assert(canonical_pattern("110"@) != canonical_pattern("11"@));
    assert(canonical_pattern("110"@) != canonical_pattern("10"@));
    assert(canonical_pattern("110"@) != canonical_pattern("111"@));
    assert(canonical_pattern("110"@) != canonical_pattern("0110"@));
    assert(canonical_pattern("110"@) != canonical_pattern("1101"@));
    assert(canonical_pattern("110"@) != canonical_pattern("010"@));
    assert(canonical_pattern("110"@) != canonical_pattern("000"@));
    assert(canonical_pattern("110"@) != canonical_pattern("1"@));
    assert(canonical_pattern("110"@) != canonical_pattern("001"@));
    assert(canonical_pattern("110"@) != canonical_pattern("0001"@));
    assert(canonical_pattern("110"@) != canonical_pattern("011"@));
    assert(canonical_pattern("110"@) != canonical_pattern("1001"@));
    assert(canonical_pattern("110"@) != canonical_pattern("1011"@));
    assert(canonical_pattern("110"@) != canonical_pattern("1100"@));
    assert(canonical_pattern("0000"@) != canonical_pattern("00"@));
    assert(canonical_pattern("0000"@) != canonical_pattern("0111"@));
    assert(canonical_pattern("0000"@) != canonical_pattern("101"@));
    assert(canonical_pattern("0000"@) != canonical_pattern("0100"@));
    assert(canonical_pattern("0000"@) != canonical_pattern("11"@));
    assert(canonical_pattern("0000"@) != canonical_pattern("10"@));
    assert(canonical_pattern("0000"@) != canonical_pattern("111"@));
    assert(canonical_pattern("0000"@) != canonical_pattern("0110"@));
    assert(canonical_pattern("0000"@) != canonical_pattern("1101"@));
    assert(canonical_pattern("0000"@) != canonical_pattern("010"@));
    assert(canonical_pattern("0000"@) != canonical_pattern("000"@));
    assert(canonical_pattern("0000"@) != canonical_pattern("1"@));
    assert(canonical_pattern("0000"@) != canonical_pattern("001"@));
    assert(canonical_pattern("0000"@) != canonical_pattern("0001"@));
    assert(canonical_pattern("0000"@) != canonical_pattern("011"@));
    assert(canonical_pattern("0000"@) != canonical_pattern("1001"@));
    assert(canonical_pattern("0000"@) != canonical_pattern("1011"@));
    assert(canonical_pattern("0000"@) != canonical_pattern("1100"@));
    assert(canonical_pattern("00"@) != canonical_pattern("0111"@));
    assert(canonical_pattern("00"@) != canonical_pattern("101"@));
    assert(canonical_pattern("00"@) != canonical_pattern("0100"@));
    assert(canonical_pattern("00"@) != canonical_pattern("11"@));
    assert(canonical_pattern("00"@) != canonical_pattern("10"@));
    assert(canonical_pattern("00"@) != canonical_pattern("111"@));
    assert(canonical_pattern("00"@) != canonical_pattern("0110"@));
    assert(canonical_pattern("00"@) != canonical_pattern("1101"@));
    assert(canonical_pattern("00"@) != canonical_pattern("010"@));
    assert(canonical_pattern("00"@) != canonical_pattern("000"@));
    assert(canonical_pattern("00"@) != canonical_pattern("1"@));
    assert(canonical_pattern("00"@) != canonical_pattern("001"@));
    assert(canonical_pattern("00"@) != canonical_pattern("0001"@));
    assert(canonical_pattern("00"@) != canonical_pattern("011"@));
    assert(canonical_pattern("00"@) != canonical_pattern("1001"@));
    assert(canonical_pattern("00"@) != canonical_pattern("1011"@));
    assert(canonical_pattern("00"@) != canonical_pattern("1100"@));
    assert(canonical_pattern("0111"@) != canonical_pattern("101"@));
    assert(canonical_pattern("0111"@) != canonical_pattern("0100"@));
    assert(canonical_pattern("0111"@) != canonical_pattern("11"@));
    assert(canonical_pattern("0111"@) != canonical_pattern("10"@));
    assert(canonical_pattern("0111"@) != canonical_pattern("111"@));
    assert(canonical_pattern("0111"@) != canonical_pattern("0110"@));
    assert(canonical_pattern("0111"@) != canonical_pattern("1101"@));
    assert(canonical_pattern("0111"@) != canonical_pattern("010"@));
    assert(canonical_pattern("0111"@) != canonical_pattern("000"@));
    assert(canonical_pattern("0111"@) != canonical_pattern("1"@));
    assert(canonical_pattern("0111"@) != canonical_pattern("001"@));
    assert(canonical_pattern("0111"@) != canonical_pattern("0001"@));
    assert(canonical_pattern("0111"@) != canonical_pattern("011"@));
    assert(canonical_pattern("0111"@) != canonical_pattern("1001"@));
    assert(canonical_pattern("0111"@) != canonical_pattern("1011"@));
    assert(canonical_pattern("0111"@) != canonical_pattern("1100"@));
    assert(canonical_pattern("101"@) != canonical_pattern("0100"@));
    assert(canonical_pattern("101"@) != canonical_pattern("11"@));
    assert(canonical_pattern("101"@) != canonical_pattern("10"@));
    assert(canonical_pattern("101"@) != canonical_pattern("111"@));
    assert(canonical_pattern("101"@) != canonical_pattern("0110"@));
    assert(canonical_pattern("101"@) != canonical_pattern("1101"@));
    assert(canonical_pattern("101"@) != canonical_pattern("010"@));
    assert(canonical_pattern("101"@) != canonical_pattern("000"@));
    assert(canonical_pattern("101"@) != canonical_pattern("1"@));
    assert(canonical_pattern("101"@) != canonical_pattern("001"@));
    assert(canonical_pattern("101"@) != canonical_pattern("0001"@));
    assert(canonical_pattern("101"@) != canonical_pattern("011"@));
    assert(canonical_pattern("101"@) != canonical_pattern("1001"@));
    assert(canonical_pattern("101"@) != canonical_pattern("1011"@));
    assert(canonical_pattern("101"@) != canonical_pattern("1100"@));
    assert(canonical_pattern("0100"@) != canonical_pattern("11"@));
    assert(canonical_pattern("0100"@) != canonical_pattern("10"@));
    assert(canonical_pattern("0100"@) != canonical_pattern("111"@));
    assert(canonical_pattern("0100"@) != canonical_pattern("0110"@));
    assert(canonical_pattern("0100"@) != canonical_pattern("1101"@));
    assert(canonical_pattern("0100"@) != canonical_pattern("010"@));
    assert(canonical_pattern("0100"@) != canonical_pattern("000"@));
    assert(canonical_pattern("0100"@) != canonical_pattern("1"@));
    assert(canonical_pattern("0100"@) != canonical_pattern("001"@));
    assert(canonical_pattern("0100"@) != canonical_pattern("0001"@));
    assert(canonical_pattern("0100"@) != canonical_pattern("011"@));
    assert(canonical_pattern("0100"@) != canonical_pattern("1001"@));
    assert(canonical_pattern("0100"@) != canonical_pattern("1011"@));
    assert(canonical_pattern("0100"@) != canonical_pattern("1100"@));
    assert(canonical_pattern("11"@) != canonical_pattern("10"@));
    assert(canonical_pattern("11"@) != canonical_pattern("111"@));
    assert(canonical_pattern("11"@) != canonical_pattern("0110"@));
    assert(canonical_pattern("11"@) != canonical_pattern("1101"@));
    assert(canonical_pattern("11"@) != canonical_pattern("010"@));
    assert(canonical_pattern("11"@) != canonical_pattern("000"@));
    assert(canonical_pattern("11"@) != canonical_pattern("1"@));
    assert(canonical_pattern("11"@) != canonical_pattern("001"@));
    assert(canonical_pattern("11"@) != canonical_pattern("0001"@));
    assert(canonical_pattern("11"@) != canonical_pattern("011"@));
    assert(canonical_pattern("11"@) != canonical_pattern("1001"@));
    assert(canonical_pattern("11"@) != canonical_pattern("1011"@));
    assert(canonical_pattern("11"@) != canonical_pattern("1100"@));
    assert(canonical_pattern("10"@) != canonical_pattern("111"@));
    assert(canonical_pattern("10"@) != canonical_pattern("0110"@));
    assert(canonical_pattern("10"@) != canonical_pattern("1101"@));
    assert(canonical_pattern("10"@) != canonical_pattern("010"@));
    assert(canonical_pattern("10"@) != canonical_pattern("000"@));
    assert(canonical_pattern("10"@) != canonical_pattern("1"@));
    assert(canonical_pattern("10"@) != canonical_pattern("001"@));
    assert(canonical_pattern("10"@) != canonical_pattern("0001"@));
    assert(canonical_pattern("10"@) != canonical_pattern("011"@));
    assert(canonical_pattern("10"@) != canonical_pattern("1001"@));
    assert(canonical_pattern("10"@) != canonical_pattern("1011"@));
    assert(canonical_pattern("10"@) != canonical_pattern("1100"@));
    assert(canonical_pattern("111"@) != canonical_pattern("0110"@));
    assert(canonical_pattern("111"@) != canonical_pattern("1101"@));
    assert(canonical_pattern("111"@) != canonical_pattern("010"@));
    assert(canonical_pattern("111"@) != canonical_pattern("000"@));
    assert(canonical_pattern("111"@) != canonical_pattern("1"@));
    assert(canonical_pattern("111"@) != canonical_pattern("001"@));
    assert(canonical_pattern("111"@) != canonical_pattern("0001"@));
    assert(canonical_pattern("111"@) != canonical_pattern("011"@));
    assert(canonical_pattern("111"@) != canonical_pattern("1001"@));
    assert(canonical_pattern("111"@) != canonical_pattern("1011"@));
    assert(canonical_pattern("111"@) != canonical_pattern("1100"@));
    assert(canonical_pattern("0110"@) != canonical_pattern("1101"@));
    assert(canonical_pattern("0110"@) != canonical_pattern("010"@));
    assert(canonical_pattern("0110"@) != canonical_pattern("000"@));
    assert(canonical_pattern("0110"@) != canonical_pattern("1"@));
    assert(canonical_pattern("0110"@) != canonical_pattern("001"@));
    assert(canonical_pattern("0110"@) != canonical_pattern("0001"@));
    assert(canonical_pattern("0110"@) != canonical_pattern("011"@));
    assert(canonical_pattern("0110"@) != canonical_pattern("1001"@));
    assert(canonical_pattern("0110"@) != canonical_pattern("1011"@));
    assert(canonical_pattern("0110"@) != canonical_pattern("1100"@));
    assert(canonical_pattern("1101"@) != canonical_pattern("010"@));
    assert(canonical_pattern("1101"@) != canonical_pattern("000"@));
    assert(canonical_pattern("1101"@) != canonical_pattern("1"@));
    assert(canonical_pattern("1101"@) != canonical_pattern("001"@));
    assert(canonical_pattern("1101"@) != canonical_pattern("0001"@));
    assert(canonical_pattern("1101"@) != canonical_pattern("011"@));
    assert(canonical_pattern("1101"@) != canonical_pattern("1001"@));
    assert(canonical_pattern("1101"@) != canonical_pattern("1011"@));
    assert(canonical_pattern("1101"@) != canonical_pattern("1100"@));
    assert(canonical_pattern("010"@) != canonical_pattern("000"@));
    assert(canonical_pattern("010"@) != canonical_pattern("1"@));
    assert(canonical_pattern("010"@) != canonical_pattern("001"@));
    assert(canonical_pattern("010"@) != canonical_pattern("0001"@));
    assert(canonical_pattern("010"@) != canonical_pattern("011"@));
    assert(canonical_pattern("010"@) != canonical_pattern("1001"@));
    assert(canonical_pattern("010"@) != canonical_pattern("1011"@));
    assert(canonical_pattern("010"@) != canonical_pattern("1100"@));
    assert(canonical_pattern("000"@) != canonical_pattern("1"@));
    assert(canonical_pattern("000"@) != canonical_pattern("001"@));
    assert(canonical_pattern("000"@) != canonical_pattern("0001"@));
    assert(canonical_pattern("000"@) != canonical_pattern("011"@));
    assert(canonical_pattern("000"@) != canonical_pattern("1001"@));
    assert(canonical_pattern("000"@) != canonical_pattern("1011"@));
    assert(canonical_pattern("000"@) != canonical_pattern("1100"@));
    assert(canonical_pattern("1"@) != canonical_pattern("001"@));
    assert(canonical_pattern("1"@) != canonical_pattern("0001"@));
    assert(canonical_pattern("1"@) != canonical_pattern("011"@));
    assert(canonical_pattern("1"@) != canonical_pattern("1001"@));
    assert(canonical_pattern("1"@) != canonical_pattern("1011"@));
    assert(canonical_pattern("1"@) != canonical_pattern("1100"@));
    assert(canonical_pattern("001"@) != canonical_pattern("0001"@));
    assert(canonical_pattern("001"@) != canonical_pattern("011"@));
    assert(canonical_pattern("001"@) != canonical_pattern("1001"@));
    assert(canonical_pattern("001"@) != canonical_pattern("1011"@));
    assert(canonical_pattern("001"@) != canonical_pattern("1100"@));
    assert(canonical_pattern("0001"@) != canonical_pattern("011"@));
    assert(canonical_pattern("0001"@) != canonical_pattern("1001"@));
    assert(canonical_pattern("0001"@) != canonical_pattern("1011"@));
    assert(canonical_pattern("0001"@) != canonical_pattern("1100"@));
    assert(canonical_pattern("011"@) != canonical_pattern("1001"@));
    assert(canonical_pattern("011"@) != canonical_pattern("1011"@));
    assert(canonical_pattern("011"@) != canonical_pattern("1100"@));
    assert(canonical_pattern("1001"@) != canonical_pattern("1011"@));
    assert(canonical_pattern("1001"@) != canonical_pattern("1100"@));
    assert(canonical_pattern("1011"@) != canonical_pattern("1100"@));
    assert forall|i: int, j: int|
        0 <= i < t.len() && 0 <= j < t.len() && t[i].1 == t[j].1 implies i == j by {
    }
    assert forall|j: int| 0 <= j < t.len() implies t[j].0 != ' ' by {
    }
    assert(tbl_has_key(t, 'A'));
    assert(tbl_has_key(t, 'B'));
    assert(tbl_has_key(t, 'C'));
    assert(tbl_has_key(t, 'D'));
    assert(tbl_has_key(t, 'E'));
    assert(tbl_has_key(t, 'F'));
    assert(tbl_has_key(t, 'G'));
    assert(tbl_has_key(t, 'H'));
    assert(tbl_has_key(t, 'I'));
    assert(tbl_has_key(t, 'J'));
    assert(tbl_has_key(t, 'K'));
    assert(tbl_has_key(t, 'L'));
    assert(tbl_has_key(t, 'M'));
    assert(tbl_has_key(t, 'N'));
    assert(tbl_has_key(t, 'O'));
    assert(tbl_has_key(t, 'P'));
    assert(tbl_has_key(t, 'Q'));
    assert(tbl_has_key(t, 'R'));
    assert(tbl_has_key(t, 'S'));
    assert(tbl_has_key(t, 'T'));
    assert(tbl_has_key(t, 'U'));
    assert(tbl_has_key(t, 'V'));
    assert(tbl_has_key(t, 'W'));
    assert(tbl_has_key(t, 'X'));
    assert(tbl_has_key(t, 'Y'));
    assert(tbl_has_key(t, 'Z'));
    assert forall|c: char| latin_letter(c) implies tbl_has_key(
        table_view(latin_pairs()),
        upper_char(c),
    ) by {
    }
}

/// The round trip under the default options: text written in Latin
/// letters with single blanks as word gaps, not starting or ending
/// with a blank, decodes from its encoding to its upper-case form.
pub proof fn lemma_default_round_trip(text: Seq<char>)
    requires
        forall|i: int| 0 <= i < text.len() ==> #[trigger] text[i] == ' ' || latin_letter(text[i]),
        forall|i: int|
            0 <= i < text.len() - 1 && #[trigger] text[i] == ' ' ==> text[i + 1] != ' ',
        text.len() > 0 ==> text[0] != ' ' && text[text.len() - 1] != ' ',
    ensures
        spec_decode(spec_encode(text, default_options()), default_options()) == fold_seq(text),
{
    let o = default_options();
    lemma_latin_table_facts();
    assert(upper_char(' ') == ' ');
    assert(fold_char(' ') =~= seq![' ']);
    assert(!is_space_char('.') && !is_space_char('-') && !is_space_char('/'));
    assert forall|i: int|
        0 <= i < text.len() implies is_space_char(#[trigger] text[i]) || priority_letter(
        text[i],
        o,
    ) by {
        if text[i] != ' ' {
            let c = text[i];
            assert(latin_letter(c));
            assert(c != '\u{df}');
            assert(fold_char(c) == seq![upper_char(c)]);
            assert(!is_space_char(upper_char(c)));
            assert(upper_char(c) != ' ');
            assert(!is_space_char(c));
        }
    }
    assert forall|i: int|
        0 <= i < text.len() && is_space_char(#[trigger] text[i]) implies text[i] == o.separator
            && (i + 1 == text.len() || !is_space_char(text[i + 1])) by {
        assert(text[i] == ' ');
        if i + 1 < text.len() {
            assert(text[i + 1] != ' ');
            if is_space_char(text[i + 1]) {
                assert(latin_letter(text[i + 1]));
                assert(false);
            }
        }
    }
    lemma_round_trip_uppercase(text, o);
}

} // verus!
