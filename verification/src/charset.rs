//! The script tags that group the character tables.

use vstd::prelude::*;

verus! {

/// A script or category of characters sharing one lookup table.
///
/// The declaration order is significant: it is the order in which the
/// merged tables are consulted during encoding, and the order in which
/// the reverse index is filled during decoding, so earlier scripts win
/// all pattern collisions. `Undefined` tags the priority overlay, which
/// is consulted before every concrete script.
#[derive(Debug, Clone, Copy, PartialEq, Eq, Hash, Structural)]
pub enum MorseCharacterSet {
    /// The priority overlay's placeholder tag.
    Undefined,
    /// The Latin alphabet.
    Latin,
    /// Decimal digits.
    Numbers,
    /// Punctuation marks.
    Punctuation,
    /// Accented and otherwise extended Latin letters.
    LatinExtended,
    /// The Cyrillic alphabet.
    Cyrillic,
    /// The Greek alphabet.
    Greek,
    /// The Hebrew alphabet.
    Hebrew,
    /// The Arabic alphabet.
    Arabic,
    /// The Persian alphabet.
    Persian,
    /// Japanese kana.
    Japanese,
    /// Korean letters.
    Korean,
    /// Thai letters.
    Thai,
}

} // verus!
