//! The encoder and the decoder.

use vstd::prelude::*;

use crate::charset::MorseCharacterSet;
use crate::merge::MorseEntry;
use crate::merge::entries_view;
use crate::merge::get_mapped_characters;
use crate::merge::merged_rendered;
use crate::options::InvalidCharPolicy;
use crate::options::Options;
use crate::options::default_options;
use crate::text::collapse_spaces;
use crate::text::collapse_ws;
use crate::text::normalize_text;
use crate::text::spec_normalize;
use crate::text::trim_ends;
use crate::text::trim_separators;

verus! {

/// Relies on `String::push`: it appends exactly the given character.
pub assume_specification[ String::push ](s: &mut String, c: char)
    ensures
        final(s)@ == old(s)@.push(c),
;

/// The pattern the merged tables give one character: the first entry
/// whose character matches, in table order, so the priority overlay
/// and earlier scripts win.
pub open spec fn lookup_pattern(entries: Seq<(char, Seq<char>)>, c: char) -> Option<Seq<char>>
    decreases entries.len(),
{
    if entries.len() == 0 {
        None
    } else if entries[0].0 == c {
        Some(entries[0].1)
    } else {
        lookup_pattern(entries.drop_first(), c)
    }
}

/// The character the reverse index gives one unit: the first entry
/// whose pattern matches, in table order — first writer wins.
pub open spec fn reverse_lookup(entries: Seq<(char, Seq<char>)>, unit: Seq<char>) -> Option<char>
    decreases entries.len(),
{
    if entries.len() == 0 {
        None
    } else if entries[0].1 == unit {
        Some(entries[0].0)
    } else {
        reverse_lookup(entries.drop_first(), unit)
    }
}

/// What the encoder emits for one normalized character: its rendered
/// pattern where some table maps it, the invalid-character policy's
/// output where none does.
pub open spec fn encode_unit(c: char, o: Options) -> Seq<char> {
    match lookup_pattern(merged_rendered(o), c) {
        Some(p) => p,
        None => match o.invalid_char {
            InvalidCharPolicy::Echo => seq![c],
            InvalidCharPolicy::Substitute(g) => seq![g],
        },
    }
}

/// The unit of every normalized character, each followed by one
/// separator glyph.
pub open spec fn encode_all(n: Seq<char>, o: Options) -> Seq<char>
    decreases n.len(),
{
    if n.len() == 0 {
        Seq::empty()
    } else {
        encode_unit(n[0], o) + seq![o.separator] + encode_all(n.drop_first(), o)
    }
}

/// What encoding yields: the units of the normalized text joined by
/// the separator glyph — every unit is followed by one separator and
/// the one trailing separator is then stripped.
pub open spec fn spec_encode(text: Seq<char>, o: Options) -> Seq<char> {
    let n = spec_normalize(text, o);
    if n.len() == 0 {
        Seq::empty()
    } else {
        encode_all(n, o).drop_last()
    }
}

/// What the decoder emits for one unit: the reverse index's character
/// where the unit is some rendered pattern, the unit itself unchanged
/// where it is not.
pub open spec fn decode_unit(u: Seq<char>, o: Options) -> Seq<char> {
    match reverse_lookup(merged_rendered(o), u) {
        Some(c) => seq![c],
        None => u,
    }
}

/// Decodes a preprocessed Morse string character by character,
/// splitting on the separator glyph; `unit` holds the characters of
/// the unit begun so far.
pub open spec fn decode_units(s: Seq<char>, unit: Seq<char>, o: Options) -> Seq<char>
    decreases s.len(),
{
    if s.len() == 0 {
        decode_unit(unit, o)
    } else if s[0] == o.separator {
        decode_unit(unit, o) + decode_units(s.drop_first(), Seq::empty(), o)
    } else {
        decode_units(s.drop_first(), unit.push(s[0]), o)
    }
}

/// What decoding yields: whitespace runs collapsed to the separator,
/// separators at the ends trimmed, then every unit decoded and the
/// results concatenated.
pub open spec fn spec_decode(morse: Seq<char>, o: Options) -> Seq<char> {
    decode_units(trim_separators(collapse_ws(morse, o.separator), o.separator), Seq::empty(), o)
}

/// The table set that [`build_tables`] yields: the merged, rendered
/// tables, with or without the priority overlay in front.
pub open spec fn build_tables_view(o: Options, include_priority_overlay: bool) -> Seq<
    (char, Seq<char>),
> {
    if include_priority_overlay {
        merged_rendered(o)
    } else {
        merged_rendered(Options { priority: MorseCharacterSet::Undefined, ..o })
    }
}

/// Builds the merged table set for direct inspection: each entry is a
/// display character and its pattern rendered into the configured
/// glyphs, listed in lookup order (the priority overlay first where it
/// is included, then the word-gap entry, then every script).
pub fn build_tables(options: Options, include_priority_overlay: bool) -> (r: Vec<(char, String)>)
    ensures
        r@.len() == build_tables_view(options, include_priority_overlay).len(),
        forall|j: int|
            0 <= j < r@.len() ==> (#[trigger] r@[j]).0 == build_tables_view(
                options,
                include_priority_overlay,
            )[j].0,
        forall|j: int|
            0 <= j < r@.len() ==> (#[trigger] r@[j]).1@ == build_tables_view(
                options,
                include_priority_overlay,
            )[j].1,
{
    let build_from = if include_priority_overlay {
        options
    } else {
        Options { priority: MorseCharacterSet::Undefined, ..options }
    };
    let entries = get_mapped_characters(&build_from);
    proof {
        assert(entries_view(entries@) == build_tables_view(options, include_priority_overlay));
    }
    let mut r: Vec<(char, String)> = Vec::new();
    let mut j: usize = 0;
    while j < entries.len()
        invariant
            j <= entries@.len(),
            entries_view(entries@) == build_tables_view(options, include_priority_overlay),
            r@.len() == j,
            forall|i: int|
                0 <= i < j ==> (#[trigger] r@[i]).0 == build_tables_view(
                    options,
                    include_priority_overlay,
                )[i].0 && r@[i].1@ == build_tables_view(options, include_priority_overlay)[i].1,
        decreases entries@.len() - j,
    {
        let ghost prev = r@;
        let entry = &entries[j];
        let rendered = string_of_chars(&entry.pattern);
        let character = entry.character;
        r.push((character, rendered));
        proof {
            assert(entries_view(entries@)[j as int] == (
                entries@[j as int].character,
                entries@[j as int].pattern@,
            ));
            assert(r@[j as int].0 == character && r@[j as int].1@ == entries@[j as int].pattern@);
            assert(forall|i: int| 0 <= i < j ==> r@[i] == prev[i]);
        }
        j += 1;
    }
    r
}

/// Collects the characters of a string slice.
fn chars_of_str(s: &str) -> (v: Vec<char>)
    ensures
        v@ == s@,
{
    let n = s.unicode_len();
    let mut v: Vec<char> = Vec::new();
    let mut i: usize = 0;
    while i < n
        invariant
            n == s@.len(),
            i <= n,
            v@ =~= s@.subrange(0, i as int),
        decreases n - i,
    {
        let c = s.get_char(i);
        v.push(c);
        i += 1;
    }
    proof {
        assert(s@.subrange(0, s@.len() as int) =~= s@);
    }
    v
}

/// Builds a string from a buffer of characters.
fn string_of_chars(v: &Vec<char>) -> (s: String)
    ensures
        s@ == v@,
{
    let mut s = String::new();
    let mut i: usize = 0;
    while i < v.len()
        invariant
            i <= v@.len(),
            s@ =~= v@.subrange(0, i as int),
        decreases v@.len() - i,
    {
        let c = v[i];
        s.push(c);
        i += 1;
    }
    proof {
        assert(v@.subrange(0, v@.len() as int) =~= v@);
    }
    s
}

/// Appends every character of `src` to `out`.
fn append_chars(out: &mut Vec<char>, src: &Vec<char>)
    ensures
        final(out)@ == old(out)@ + src@,
{
    let mut k: usize = 0;
    proof {
        assert(out@ =~= old(out)@ + src@.subrange(0, 0));
    }
    while k < src.len()
        invariant
            k <= src@.len(),
            out@ == old(out)@ + src@.subrange(0, k as int),
        decreases src@.len() - k,
    {
        let c = src[k];
        out.push(c);
        proof {
            assert(out@ =~= old(out)@ + src@.subrange(0, k as int + 1));
        }
        k += 1;
    }
    proof {
        assert(src@.subrange(0, src@.len() as int) =~= src@);
    }
}

/// Finds the first merged-table entry for a character, scanning in
/// table order.
fn find_pattern(characters: &Vec<MorseEntry>, c: char) -> (r: Option<usize>)
    ensures
        (match r {
            Some(j) => {
                &&& j < characters@.len()
                &&& characters@[j as int].character == c
                &&& lookup_pattern(entries_view(characters@), c) == Some(
                    characters@[j as int].pattern@,
                )
            },
            None => lookup_pattern(entries_view(characters@), c) == None::<Seq<char>>,
        }),
{
    let ghost e = entries_view(characters@);
    let mut j: usize = 0;
    proof {
        assert(e.skip(0) =~= e);
    }
    while j < characters.len()
        invariant
            j <= characters@.len(),
            e == entries_view(characters@),
            lookup_pattern(e, c) == lookup_pattern(e.skip(j as int), c),
        decreases characters@.len() - j,
    {
        proof {
            assert(e.skip(j as int)[0] == e[j as int]);
            assert(e[j as int] == (characters@[j as int].character, characters@[j as int].pattern@));
        }
        let entry = &characters[j];
        if entry.character == c {
            return Some(j);
        }
        proof {
            assert(e.skip(j as int).drop_first() =~= e.skip(j as int + 1));
        }
        j += 1;
    }
    proof {
        assert(e.skip(characters@.len() as int) =~= Seq::<(char, Seq<char>)>::empty());
    }
    None
}

/// Compares two character buffers.
fn chars_equal(a: &Vec<char>, b: &Vec<char>) -> (r: bool)
    ensures
        r == (a@ == b@),
{
    if a.len() != b.len() {
        return false;
    }
    let mut k: usize = 0;
    while k < a.len()
        invariant
            a@.len() == b@.len(),
            k <= a@.len(),
            forall|i: int| 0 <= i < k ==> a@[i] == b@[i],
        decreases a@.len() - k,
    {
        if a[k] != b[k] {
            return false;
        }
        k += 1;
    }
    proof {
        assert(a@ =~= b@);
    }
    true
}

/// Finds the character of the first merged-table entry whose rendered
/// pattern equals the unit — the reverse index, first writer wins.
fn find_character(characters: &Vec<MorseEntry>, unit: &Vec<char>) -> (r: Option<char>)
    ensures
        (match r {
            Some(c) => reverse_lookup(entries_view(characters@), unit@) == Some(c),
            None => reverse_lookup(entries_view(characters@), unit@) == None::<char>,
        }),
{
    let ghost e = entries_view(characters@);
    let mut j: usize = 0;
    proof {
        assert(e.skip(0) =~= e);
    }
    while j < characters.len()
        invariant
            j <= characters@.len(),
            e == entries_view(characters@),
            reverse_lookup(e, unit@) == reverse_lookup(e.skip(j as int), unit@),
        decreases characters@.len() - j,
    {
        proof {
            assert(e.skip(j as int)[0] == e[j as int]);
            assert(e[j as int] == (characters@[j as int].character, characters@[j as int].pattern@));
        }
        let entry = &characters[j];
        if chars_equal(&entry.pattern, unit) {
            return Some(entry.character);
        }
        proof {
            assert(e.skip(j as int).drop_first() =~= e.skip(j as int + 1));
        }
        j += 1;
    }
    proof {
        assert(e.skip(characters@.len() as int) =~= Seq::<(char, Seq<char>)>::empty());
    }
    None
}

/// An encoder and decoder configured once with a set of [`Options`]
/// and holding the merged, rendered character tables built from them.
#[derive(Debug, Clone)]
pub struct MorseCode {
    /// The configuration the tables were built from.
    options: Options,
    /// The merged table set, rendered into the configured glyphs.
    characters: Vec<MorseEntry>,
}

impl MorseCode {
    /// The configuration this value was built with.
    pub closed spec fn opts(&self) -> Options {
        self.options
    }

    /// The tables held are exactly the merged, rendered tables of the
    /// configuration: the well-formedness that [`MorseCode::new`]
    /// establishes and every call relies on.
    pub closed spec fn inv(&self) -> bool {
        entries_view(self.characters@) == merged_rendered(self.options)
    }

    /// Builds an encoder and decoder for the given options.
    #[must_use]
    pub fn new(options: Options) -> (r: Self)
        ensures
            r.inv(),
            r.opts() == options,
    {
        let characters = get_mapped_characters(&options);
        MorseCode { options, characters }
    }

    /// Encodes text into a Morse symbol string.
    #[verifier::rlimit(50)]
    pub fn encode(&self, text: &str) -> (r: String)
        requires
            self.inv(),
        ensures
            r@ == spec_encode(text@, self.opts()),
            text@.len() == 0 ==> r@.len() == 0,
    {
        let chars = chars_of_str(text);
        let n = normalize_text(&chars, &self.options);
        let ghost o = self.options;
        let mut out: Vec<char> = Vec::new();
        let mut i: usize = 0;
        proof {
            assert(n@.skip(0) =~= n@);
            assert(out@ + encode_all(n@, o) =~= encode_all(n@, o));
        }
        while i < n.len()
            invariant
                i <= n@.len(),
                o == self.options,
                self.inv(),
                n@ == spec_normalize(chars@, o),
                out@ + encode_all(n@.skip(i as int), o) == encode_all(n@, o),
            decreases n@.len() - i,
        {
            let ghost rest = n@.skip(i as int);
            let ghost out_before = out@;
            proof {
                assert(rest[0] == n@[i as int]);
                assert(rest.drop_first() =~= n@.skip(i as int + 1));
            }
            let c = n[i];
            match find_pattern(&self.characters, c) {
                Some(j) => {
                    let entry = &self.characters[j];
                    append_chars(&mut out, &entry.pattern);
                },
                None => {
                    match self.options.invalid_char {
                        InvalidCharPolicy::Echo => { out.push(c) },
                        InvalidCharPolicy::Substitute(g) => { out.push(g) },
                    }
                },
            }
            proof {
                assert(out@ =~= out_before + encode_unit(c, o));
            }
            out.push(self.options.separator);
            proof {
                assert(out@ + encode_all(n@.skip(i as int + 1), o) =~= encode_all(n@, o));
            }
            i += 1;
        }
        proof {
            assert(n@.skip(n@.len() as int) =~= Seq::<char>::empty());
            assert(encode_all(Seq::<char>::empty(), o) =~= Seq::<char>::empty());
            assert(out@ =~= encode_all(n@, o));
        }
        if n.len() > 0 {
            proof {
                assert(encode_all(n@, o).len() > 0);
            }
            out.pop();
            proof {
                assert(out@ =~= encode_all(n@, o).drop_last());
            }
        }
        proof {
            if chars@.len() == 0 {
                assert(collapse_ws(chars@, o.separator) =~= Seq::<char>::empty());
                assert(spec_normalize(chars@, o) =~= Seq::<char>::empty());
            }
        }
        string_of_chars(&out)
    }

    /// Decodes a Morse symbol string back into text.
    #[verifier::rlimit(50)]
    pub fn decode(&self, morse: &str) -> (r: String)
        requires
            self.inv(),
        ensures
            r@ == spec_decode(morse@, self.opts()),
            morse@.len() == 0 ==> r@.len() == 0,
    {
        let chars = chars_of_str(morse);
        let collapsed = collapse_spaces(&chars, self.options.separator);
        let pre = trim_ends(collapsed, self.options.separator);
        let ghost o = self.options;
        let mut out: Vec<char> = Vec::new();
        let mut unit: Vec<char> = Vec::new();
        let mut i: usize = 0;
        proof {
            assert(pre@.skip(0) =~= pre@);
            assert(out@ + decode_units(pre@, unit@, o) =~= decode_units(pre@, Seq::empty(), o));
        }
        while i < pre.len()
            invariant
                i <= pre@.len(),
                o == self.options,
                self.inv(),
                out@ + decode_units(pre@.skip(i as int), unit@, o) == decode_units(
                    pre@,
                    Seq::empty(),
                    o,
                ),
            decreases pre@.len() - i,
        {
            let ghost rest = pre@.skip(i as int);
            let ghost out_before = out@;
            let ghost unit_before = unit@;
            proof {
                assert(rest[0] == pre@[i as int]);
                assert(rest.drop_first() =~= pre@.skip(i as int + 1));
            }
            let c = pre[i];
            if c == self.options.separator {
                match find_character(&self.characters, &unit) {
                    Some(ch) => { out.push(ch) },
                    None => { append_chars(&mut out, &unit) },
                }
                unit.clear();
                proof {
                    assert(out@ =~= out_before + decode_unit(unit_before, o));
                }
            } else {
                unit.push(c);
            }
            proof {
                assert(out@ + decode_units(pre@.skip(i as int + 1), unit@, o) =~= decode_units(
                    pre@,
                    Seq::empty(),
                    o,
                ));
            }
            i += 1;
        }
        proof {
            assert(pre@.skip(pre@.len() as int) =~= Seq::<char>::empty());
        }
        match find_character(&self.characters, &unit) {
            Some(ch) => { out.push(ch) },
            None => { append_chars(&mut out, &unit) },
        }
        proof {
            assert(out@ =~= spec_decode(morse@, o));
            if morse@.len() == 0 {
                assert(morse@ =~= Seq::<char>::empty());
                crate::laws::lemma_decode_empty(o);
            }
        }
        string_of_chars(&out)
    }
}

impl Default for MorseCode {
    /// The encoder and decoder of the default options.
    fn default() -> (r: Self)
        ensures
            r.inv(),
            r.opts() == default_options(),
    {
        MorseCode::new(Options::default())
    }
}

} // verus!
