//! Morse-code transcoding across many scripts.
//!
//! The crate converts plain text to and from Morse symbol strings. The
//! glyphs used for the dot, the dash, the word gap and the separator
//! between characters are configurable through [`Options`], as is a
//! priority script whose table is consulted first during encoding and
//! whose characters win all collisions when decoding.

pub mod casing;
pub mod charset;
pub mod codec;
pub mod laws;
pub mod merge;
pub mod options;
pub mod pattern;
pub mod tables;
pub mod text;

pub use charset::MorseCharacterSet;
pub use codec::MorseCode;
pub use codec::build_tables;
pub use options::InvalidCharPolicy;
pub use options::Options;
