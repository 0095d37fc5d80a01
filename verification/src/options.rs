//! Configuration for encoding and decoding.

use vstd::prelude::*;

use crate::charset::MorseCharacterSet;

verus! {

/// What the encoder emits for a character that no table maps.
#[derive(Debug, Clone, Copy, PartialEq, Eq, Structural)]
pub enum InvalidCharPolicy {
    /// Echo the unrecognized character itself.
    Echo,
    /// Emit a fixed substitute glyph.
    Substitute(char),
}

/// Immutable configuration for one encoder or decoder.
///
/// The glyph fields should be pairwise distinct (see [`Options::wf`]);
/// this is a caller responsibility. With a separator glyph equal to one
/// of the other glyphs the output cannot be split back unambiguously.
#[derive(Debug, Clone, Copy, PartialEq, Eq, Structural)]
pub struct Options {
    /// Glyph standing for a dash.
    pub dash: char,
    /// Glyph standing for a dot.
    pub dot: char,
    /// Glyph marking a gap between words.
    pub space: char,
    /// Glyph separating the per-character Morse units.
    pub separator: char,
    /// The script whose table is consulted first and wins collisions.
    pub priority: MorseCharacterSet,
    /// Policy for characters that no table maps.
    pub invalid_char: InvalidCharPolicy,
}

impl Options {
    /// The four glyphs are pairwise distinct, so that encoded output
    /// can be split and rendered back without ambiguity.
    pub open spec fn wf(&self) -> bool {
        &&& self.dash != self.dot
        &&& self.dash != self.space
        &&& self.dash != self.separator
        &&& self.dot != self.space
        &&& self.dot != self.separator
        &&& self.space != self.separator
    }
}

/// The default configuration: `-` for dashes, `.` for dots, `/` between
/// words, one blank between units, unknown characters echoed, Latin first.
pub open spec fn default_options() -> Options {
    Options {
        dash: '-',
        dot: '.',
        space: '/',
        separator: ' ',
        priority: MorseCharacterSet::Latin,
        invalid_char: InvalidCharPolicy::Echo,
    }
}

impl Default for Options {
    fn default() -> (r: Self)
        ensures
            r == default_options(),
    {
        Options {
            dash: '-',
            dot: '.',
            space: '/',
            separator: ' ',
            priority: MorseCharacterSet::Latin,
            invalid_char: InvalidCharPolicy::Echo,
        }
    }
}

} // verus!
