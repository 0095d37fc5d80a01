//! The per-script character tables: the fixed data asset.
//!
//! Each table maps a display character to its Morse pattern written as a
//! string of `0` (dot) and `1` (dash). Within one table the keys are
//! unique and listed in increasing order of their code points; patterns
//! may repeat, both within a table and across tables. Each table exists
//! twice, as a specification-level sequence that the contracts speak of
//! and as an executable builder proved to return exactly that sequence.

use vstd::prelude::*;

use crate::charset::MorseCharacterSet;

verus! {

/// The table of Latin letters, as the contracts see it.
pub open spec fn latin_pairs() -> Seq<(char, &'static str)> {
    seq![
        ('A', "01"),
        ('B', "1000"),
        ('C', "1010"),
        ('D', "100"),
        ('E', "0"),
        ('F', "0010"),
        ('G', "110"),
        ('H', "0000"),
        ('I', "00"),
        ('J', "0111"),
        ('K', "101"),
        ('L', "0100"),
        ('M', "11"),
        ('N', "10"),
        ('O', "111"),
        ('P', "0110"),
        ('Q', "1101"),
        ('R', "010"),
        ('S', "000"),
        ('T', "1"),
        ('U', "001"),
        ('V', "0001"),
        ('W', "011"),
        ('X', "1001"),
        ('Y', "1011"),
        ('Z', "1100"),
    ]
}

/// Builds the table of Latin letters.
pub(crate) fn latin_chars() -> (r: Vec<(char, &'static str)>)
    ensures
        r@ == latin_pairs(),
{
    let mut r: Vec<(char, &'static str)> = Vec::new();
    r.push(('A', "01"));
    r.push(('B', "1000"));
    r.push(('C', "1010"));
    r.push(('D', "100"));
    r.push(('E', "0"));
    r.push(('F', "0010"));
    r.push(('G', "110"));
    r.push(('H', "0000"));
    r.push(('I', "00"));
    r.push(('J', "0111"));
    r.push(('K', "101"));
    r.push(('L', "0100"));
    r.push(('M', "11"));
    r.push(('N', "10"));
    r.push(('O', "111"));
    r.push(('P', "0110"));
    r.push(('Q', "1101"));
    r.push(('R', "010"));
    r.push(('S', "000"));
    r.push(('T', "1"));
    r.push(('U', "001"));
    r.push(('V', "0001"));
    r.push(('W', "011"));
    r.push(('X', "1001"));
    r.push(('Y', "1011"));
    r.push(('Z', "1100"));
    proof { assert(r@ =~= latin_pairs()); }
    r
}

/// The table of decimal digits, as the contracts see it.
pub open spec fn numbers_pairs() -> Seq<(char, &'static str)> {
    seq![
        ('0', "11111"),
        ('1', "01111"),
        ('2', "00111"),
        ('3', "00011"),
        ('4', "00001"),
        ('5', "00000"),
        ('6', "10000"),
        ('7', "11000"),
        ('8', "11100"),
        ('9', "11110"),
    ]
}

/// Builds the table of decimal digits.
pub(crate) fn numbers_chars() -> (r: Vec<(char, &'static str)>)
    ensures
        r@ == numbers_pairs(),
{
    let mut r: Vec<(char, &'static str)> = Vec::new();
    r.push(('0', "11111"));
    r.push(('1', "01111"));
    r.push(('2', "00111"));
    r.push(('3', "00011"));
    r.push(('4', "00001"));
    r.push(('5', "00000"));
    r.push(('6', "10000"));
    r.push(('7', "11000"));
    r.push(('8', "11100"));
    r.push(('9', "11110"));
    proof { assert(r@ =~= numbers_pairs()); }
    r
}

/// The table of punctuation marks, as the contracts see it.
pub open spec fn punctuation_pairs() -> Seq<(char, &'static str)> {
    seq![
        ('!', "101011"),
        ('"', "010010"),
        ('$', "0001001"),
        ('&', "01000"),
        ('\'', "011110"),
        ('(', "10110"),
        (')', "101101"),
        ('+', "01010"),
        (',', "110011"),
        ('-', "100001"),
        ('.', "010101"),
        ('/', "10010"),
        (':', "111000"),
        (';', "101010"),
        ('=', "10001"),
        ('?', "001100"),
        ('@', "011010"),
        ('_', "001101"),
        ('¡', "110001"),
        ('¿', "00101"),
    ]
}

/// Builds the table of punctuation marks.
pub(crate) fn punctuation_chars() -> (r: Vec<(char, &'static str)>)
    ensures
        r@ == punctuation_pairs(),
{
    let mut r: Vec<(char, &'static str)> = Vec::new();
    r.push(('!', "101011"));
    r.push(('"', "010010"));
    r.push(('$', "0001001"));
    r.push(('&', "01000"));
    r.push(('\'', "011110"));
    r.push(('(', "10110"));
    r.push((')', "101101"));
    r.push(('+', "01010"));
    r.push((',', "110011"));
    r.push(('-', "100001"));
    r.push(('.', "010101"));
    r.push(('/', "10010"));
    r.push((':', "111000"));
    r.push((';', "101010"));
    r.push(('=', "10001"));
    r.push(('?', "001100"));
    r.push(('@', "011010"));
    r.push(('_', "001101"));
    r.push(('¡', "110001"));
    r.push(('¿', "00101"));
    proof { assert(r@ =~= punctuation_pairs()); }
    r
}

/// The table of extended Latin letters, as the contracts see it.
pub open spec fn latin_extended_pairs() -> Seq<(char, &'static str)> {
    seq![
        ('À', "01101"),
        ('Á', "01101"),
        ('Â', "01101"),
        ('Ã', "01101"),
        ('Ä', "0101"),
        ('Å', "01101"),
        ('Æ', "0101"),
        ('Ç', "10100"),
        ('È', "01001"),
        ('É', "00100"),
        ('Ê', "10010"),
        ('Ë', "00100"),
        ('Ì', "01110"),
        ('Ï', "10011"),
        ('Ð', "00110"),
        ('Ñ', "11011"),
        ('Ò', "1110"),
        ('Ó', "1110"),
        ('Ô', "1110"),
        ('Ö', "1110"),
        ('Ø', "1110"),
        ('Ù', "0011"),
        ('Ü', "0011"),
        ('Þ', "01100"),
        ('ß', "000000"),
        ('Ą', "0101"),
        ('Ć', "10100"),
        ('Ĉ', "10100"),
        ('Č', "110"),
        ('Ę', "00100"),
        ('Ĝ', "11010"),
        ('Ğ', "11010"),
        ('Ĥ', "1111"),
        ('İ', "01001"),
        ('Ĵ', "01110"),
        ('Ł', "01001"),
        ('Ń', "11011"),
        ('Ś', "0001000"),
        ('Ŝ', "00010"),
        ('Ş', "01100"),
        ('Š', "1111"),
        ('Ŭ', "0011"),
        ('Ź', "110010"),
        ('Ż', "11001"),
        ('Ž', "11001"),
        ('Ș', "1111"),
    ]
}

/// Builds the table of extended Latin letters.
pub(crate) fn latin_extended_chars() -> (r: Vec<(char, &'static str)>)
    ensures
        r@ == latin_extended_pairs(),
{
    let mut r: Vec<(char, &'static str)> = Vec::new();
    r.push(('À', "01101"));
    r.push(('Á', "01101"));
    r.push(('Â', "01101"));
    r.push(('Ã', "01101"));
    r.push(('Ä', "0101"));
    r.push(('Å', "01101"));
    r.push(('Æ', "0101"));
    r.push(('Ç', "10100"));
    r.push(('È', "01001"));
    r.push(('É', "00100"));
    r.push(('Ê', "10010"));
    r.push(('Ë', "00100"));
    r.push(('Ì', "01110"));
    r.push(('Ï', "10011"));
    r.push(('Ð', "00110"));
    r.push(('Ñ', "11011"));
    r.push(('Ò', "1110"));
    r.push(('Ó', "1110"));
    r.push(('Ô', "1110"));
    r.push(('Ö', "1110"));
    r.push(('Ø', "1110"));
    r.push(('Ù', "0011"));
    r.push(('Ü', "0011"));
    r.push(('Þ', "01100"));
    r.push(('ß', "000000"));
    r.push(('Ą', "0101"));
    r.push(('Ć', "10100"));
    r.push(('Ĉ', "10100"));
    r.push(('Č', "110"));
    r.push(('Ę', "00100"));
    r.push(('Ĝ', "11010"));
    r.push(('Ğ', "11010"));
    r.push(('Ĥ', "1111"));
    r.push(('İ', "01001"));
    r.push(('Ĵ', "01110"));
    r.push(('Ł', "01001"));
    r.push(('Ń', "11011"));
    r.push(('Ś', "0001000"));
    r.push(('Ŝ', "00010"));
    r.push(('Ş', "01100"));
    r.push(('Š', "1111"));
    r.push(('Ŭ', "0011"));
    r.push(('Ź', "110010"));
    r.push(('Ż', "11001"));
    r.push(('Ž', "11001"));
    r.push(('Ș', "1111"));
    proof { assert(r@ =~= latin_extended_pairs()); }
    r
}

/// The table of Cyrillic letters, as the contracts see it.
pub open spec fn cyrillic_pairs() -> Seq<(char, &'static str)> {
    seq![
        ('Є', "00100"),
        ('І', "00"),
        ('Ї', "01110"),
        ('А', "01"),
        ('Б', "1000"),
        ('В', "011"),
        ('Г', "110"),
        ('Д', "100"),
        ('Е', "0"),
        ('Ж', "0001"),
        ('З', "1100"),
        ('И', "00"),
        ('Й', "0111"),
        ('К', "101"),
        ('Л', "0100"),
        ('М', "11"),
        ('Н', "10"),
        ('О', "111"),
        ('П', "0110"),
        ('Р', "010"),
        ('С', "000"),
        ('Т', "1"),
        ('У', "001"),
        ('Ф', "0010"),
        ('Х', "0000"),
        ('Ц', "1010"),
        ('Ч', "1110"),
        ('Ш', "1111"),
        ('Щ', "1101"),
        ('Ъ', "11011"),
        ('Ы', "1011"),
        ('Ь', "1001"),
        ('Э', "00100"),
        ('Ю', "0011"),
        ('Я', "0101"),
        ('Ґ', "110"),
    ]
}

/// Builds the table of Cyrillic letters.
pub(crate) fn cyrillic_chars() -> (r: Vec<(char, &'static str)>)
    ensures
        r@ == cyrillic_pairs(),
{
    let mut r: Vec<(char, &'static str)> = Vec::new();
    r.push(('Є', "00100"));
    r.push(('І', "00"));
    r.push(('Ї', "01110"));
    r.push(('А', "01"));
    r.push(('Б', "1000"));
    r.push(('В', "011"));
    r.push(('Г', "110"));
    r.push(('Д', "100"));
    r.push(('Е', "0"));
    r.push(('Ж', "0001"));
    r.push(('З', "1100"));
    r.push(('И', "00"));
    r.push(('Й', "0111"));
    r.push(('К', "101"));
    r.push(('Л', "0100"));
    r.push(('М', "11"));
    r.push(('Н', "10"));
    r.push(('О', "111"));
    r.push(('П', "0110"));
    r.push(('Р', "010"));
    r.push(('С', "000"));
    r.push(('Т', "1"));
    r.push(('У', "001"));
    r.push(('Ф', "0010"));
    r.push(('Х', "0000"));
    r.push(('Ц', "1010"));
    r.push(('Ч', "1110"));
    r.push(('Ш', "1111"));
    r.push(('Щ', "1101"));
    r.push(('Ъ', "11011"));
    r.push(('Ы', "1011"));
    r.push(('Ь', "1001"));
    r.push(('Э', "00100"));
    r.push(('Ю', "0011"));
    r.push(('Я', "0101"));
    r.push(('Ґ', "110"));
    proof { assert(r@ =~= cyrillic_pairs()); }
    r
}

/// The table of Greek letters, as the contracts see it.
pub open spec fn greek_pairs() -> Seq<(char, &'static str)> {
    seq![
        ('Α', "01"),
        ('Β', "1000"),
        ('Γ', "110"),
        ('Δ', "100"),
        ('Ε', "0"),
        ('Ζ', "1100"),
        ('Η', "0000"),
        ('Θ', "1010"),
        ('Ι', "00"),
        ('Κ', "101"),
        ('Λ', "0100"),
        ('Μ', "11"),
        ('Ν', "10"),
        ('Ξ', "1001"),
        ('Ο', "111"),
        ('Π', "0110"),
        ('Ρ', "010"),
        ('Σ', "000"),
        ('Τ', "1"),
        ('Υ', "1011"),
        ('Φ', "0010"),
        ('Χ', "1111"),
        ('Ψ', "1101"),
        ('Ω', "011"),
    ]
}

/// Builds the table of Greek letters.
pub(crate) fn greek_chars() -> (r: Vec<(char, &'static str)>)
    ensures
        r@ == greek_pairs(),
{
    let mut r: Vec<(char, &'static str)> = Vec::new();
    r.push(('Α', "01"));
    r.push(('Β', "1000"));
    r.push(('Γ', "110"));
    r.push(('Δ', "100"));
    r.push(('Ε', "0"));
    r.push(('Ζ', "1100"));
    r.push(('Η', "0000"));
    r.push(('Θ', "1010"));
    r.push(('Ι', "00"));
    r.push(('Κ', "101"));
    r.push(('Λ', "0100"));
    r.push(('Μ', "11"));
    r.push(('Ν', "10"));
    r.push(('Ξ', "1001"));
    r.push(('Ο', "111"));
    r.push(('Π', "0110"));
    r.push(('Ρ', "010"));
    r.push(('Σ', "000"));
    r.push(('Τ', "1"));
    r.push(('Υ', "1011"));
    r.push(('Φ', "0010"));
    r.push(('Χ', "1111"));
    r.push(('Ψ', "1101"));
    r.push(('Ω', "011"));
    proof { assert(r@ =~= greek_pairs()); }
    r
}

/// The table of Hebrew letters, as the contracts see it.
pub open spec fn hebrew_pairs() -> Seq<(char, &'static str)> {
    seq![
        ('א', "01"),
        ('ב', "1000"),
        ('ג', "110"),
        ('ד', "100"),
        ('ה', "111"),
        ('ו', "0"),
        ('ז', "1100"),
        ('ח', "0000"),
        ('ט', "001"),
        ('י', "00"),
        ('כ', "101"),
        ('ל', "0100"),
        ('מ', "11"),
        ('נ', "10"),
        ('ס', "1010"),
        ('ע', "0111"),
        ('פ', "0110"),
        ('צ', "011"),
        ('ק', "1101"),
        ('ר', "010"),
        ('ש', "000"),
        ('ת', "1"),
    ]
}

/// Builds the table of Hebrew letters.
pub(crate) fn hebrew_chars() -> (r: Vec<(char, &'static str)>)
    ensures
        r@ == hebrew_pairs(),
{
    let mut r: Vec<(char, &'static str)> = Vec::new();
    r.push(('א', "01"));
    r.push(('ב', "1000"));
    r.push(('ג', "110"));
    r.push(('ד', "100"));
    r.push(('ה', "111"));
    r.push(('ו', "0"));
    r.push(('ז', "1100"));
    r.push(('ח', "0000"));
    r.push(('ט', "001"));
    r.push(('י', "00"));
    r.push(('כ', "101"));
    r.push(('ל', "0100"));
    r.push(('מ', "11"));
    r.push(('נ', "10"));
    r.push(('ס', "1010"));
    r.push(('ע', "0111"));
    r.push(('פ', "0110"));
    r.push(('צ', "011"));
    r.push(('ק', "1101"));
    r.push(('ר', "010"));
    r.push(('ש', "000"));
    r.push(('ת', "1"));
    proof { assert(r@ =~= hebrew_pairs()); }
    r
}

/// The table of Arabic letters, as the contracts see it.
pub open spec fn arabic_pairs() -> Seq<(char, &'static str)> {
    seq![
        ('ا', "01"),
        ('ب', "1000"),
        ('ت', "1"),
        ('ث', "1010"),
        ('ج', "0111"),
        ('ح', "0000"),
        ('خ', "111"),
        ('د', "100"),
        ('ذ', "1100"),
        ('ر', "010"),
        ('ز', "1110"),
        ('س', "000"),
        ('ش', "1111"),
        ('ص', "1001"),
        ('ض', "0001"),
        ('ط', "001"),
        ('ظ', "1011"),
        ('ع', "0101"),
        ('غ', "110"),
        ('ف', "0010"),
        ('ق', "1101"),
        ('ك', "101"),
        ('ل', "0100"),
        ('م', "11"),
        ('ن', "10"),
        ('ه', "00100"),
        ('و', "011"),
        ('ي', "00"),
        ('ﺀ', "0"),
    ]
}

/// Builds the table of Arabic letters.
pub(crate) fn arabic_chars() -> (r: Vec<(char, &'static str)>)
    ensures
        r@ == arabic_pairs(),
{
    let mut r: Vec<(char, &'static str)> = Vec::new();
    r.push(('ا', "01"));
    r.push(('ب', "1000"));
    r.push(('ت', "1"));
    r.push(('ث', "1010"));
    r.push(('ج', "0111"));
    r.push(('ح', "0000"));
    r.push(('خ', "111"));
    r.push(('د', "100"));
    r.push(('ذ', "1100"));
    r.push(('ر', "010"));
    r.push(('ز', "1110"));
    r.push(('س', "000"));
    r.push(('ش', "1111"));
    r.push(('ص', "1001"));
    r.push(('ض', "0001"));
    r.push(('ط', "001"));
    r.push(('ظ', "1011"));
    r.push(('ع', "0101"));
    r.push(('غ', "110"));
    r.push(('ف', "0010"));
    r.push(('ق', "1101"));
    r.push(('ك', "101"));
    r.push(('ل', "0100"));
    r.push(('م', "11"));
    r.push(('ن', "10"));
    r.push(('ه', "00100"));
    r.push(('و', "011"));
    r.push(('ي', "00"));
    r.push(('ﺀ', "0"));
    proof { assert(r@ =~= arabic_pairs()); }
    r
}

/// The table of Persian letters, as the contracts see it.
pub open spec fn persian_pairs() -> Seq<(char, &'static str)> {
    seq![
        ('ا', "01"),
        ('ب', "1000"),
        ('ت', "1"),
        ('ث', "1010"),
        ('ج', "0111"),
        ('ح', "0000"),
        ('خ', "1001"),
        ('د', "100"),
        ('ذ', "0001"),
        ('ر', "010"),
        ('ز', "1100"),
        ('س', "000"),
        ('ش', "1111"),
        ('ص', "0101"),
        ('ض', "00100"),
        ('ط', "001"),
        ('ظ', "1011"),
        ('ع', "111"),
        ('غ', "0011"),
        ('ف', "0010"),
        ('ق', "111000"),
        ('ل', "0100"),
        ('م', "11"),
        ('ن', "10"),
        ('ه', "0"),
        ('و', "011"),
        ('پ', "0110"),
        ('چ', "1110"),
        ('ژ', "110"),
        ('ک', "101"),
        ('گ', "1101"),
        ('ی', "00"),
    ]
}

/// Builds the table of Persian letters.
pub(crate) fn persian_chars() -> (r: Vec<(char, &'static str)>)
    ensures
        r@ == persian_pairs(),
{
    let mut r: Vec<(char, &'static str)> = Vec::new();
    r.push(('ا', "01"));
    r.push(('ب', "1000"));
    r.push(('ت', "1"));
    r.push(('ث', "1010"));
    r.push(('ج', "0111"));
    r.push(('ح', "0000"));
    r.push(('خ', "1001"));
    r.push(('د', "100"));
    r.push(('ذ', "0001"));
    r.push(('ر', "010"));
    r.push(('ز', "1100"));
    r.push(('س', "000"));
    r.push(('ش', "1111"));
    r.push(('ص', "0101"));
    r.push(('ض', "00100"));
    r.push(('ط', "001"));
    r.push(('ظ', "1011"));
    r.push(('ع', "111"));
    r.push(('غ', "0011"));
    r.push(('ف', "0010"));
    r.push(('ق', "111000"));
    r.push(('ل', "0100"));
    r.push(('م', "11"));
    r.push(('ن', "10"));
    r.push(('ه', "0"));
    r.push(('و', "011"));
    r.push(('پ', "0110"));
    r.push(('چ', "1110"));
    r.push(('ژ', "110"));
    r.push(('ک', "101"));
    r.push(('گ', "1101"));
    r.push(('ی', "00"));
    proof { assert(r@ =~= persian_pairs()); }
    r
}

/// The table of Japanese kana and signs, as the contracts see it.
pub open spec fn japanese_pairs() -> Seq<(char, &'static str)> {
    seq![
        ('、', "010101"),
        ('。', "010100"),
        ('゛', "00"),
        ('゜', "00110"),
        ('ア', "11011"),
        ('イ', "01"),
        ('ウ', "001"),
        ('エ', "10111"),
        ('オ', "01000"),
        ('カ', "0100"),
        ('キ', "10100"),
        ('ク', "0001"),
        ('ケ', "1011"),
        ('コ', "1111"),
        ('サ', "10101"),
        ('シ', "11010"),
        ('ス', "11101"),
        ('セ', "01110"),
        ('ソ', "1110"),
        ('タ', "10"),
        ('チ', "0010"),
        ('ツ', "0110"),
        ('テ', "01011"),
        ('ト', "00100"),
        ('ナ', "010"),
        ('ニ', "1010"),
        ('ヌ', "0000"),
        ('ネ', "1101"),
        ('ノ', "0011"),
        ('ハ', "1000"),
        ('ヒ', "11001"),
        ('フ', "1100"),
        ('ヘ', "0"),
        ('ホ', "100"),
        ('マ', "1001"),
        ('ミ', "00101"),
        ('ム', "1"),
        ('メ', "10001"),
        ('モ', "10010"),
        ('ヤ', "011"),
        ('ユ', "10011"),
        ('ヨ', "11"),
        ('ラ', "000"),
        ('リ', "110"),
        ('ル', "10110"),
        ('レ', "111"),
        ('ロ', "0101"),
        ('ワ', "101"),
        ('ヰ', "01001"),
        ('ヱ', "01100"),
        ('ヲ', "0111"),
        ('ン', "01010"),
        ('ー', "01101"),
        ('（', "101101"),
        ('）', "010010"),
    ]
}

/// Builds the table of Japanese kana and signs.
pub(crate) fn japanese_chars() -> (r: Vec<(char, &'static str)>)
    ensures
        r@ == japanese_pairs(),
{
    let mut r: Vec<(char, &'static str)> = Vec::new();
    r.push(('、', "010101"));
    r.push(('。', "010100"));
    r.push(('゛', "00"));
    r.push(('゜', "00110"));
    r.push(('ア', "11011"));
    r.push(('イ', "01"));
    r.push(('ウ', "001"));
    r.push(('エ', "10111"));
    r.push(('オ', "01000"));
    r.push(('カ', "0100"));
    r.push(('キ', "10100"));
    r.push(('ク', "0001"));
    r.push(('ケ', "1011"));
    r.push(('コ', "1111"));
    r.push(('サ', "10101"));
    r.push(('シ', "11010"));
    r.push(('ス', "11101"));
    r.push(('セ', "01110"));
    r.push(('ソ', "1110"));
    r.push(('タ', "10"));
    r.push(('チ', "0010"));
    r.push(('ツ', "0110"));
    r.push(('テ', "01011"));
    r.push(('ト', "00100"));
    r.push(('ナ', "010"));
    r.push(('ニ', "1010"));
    r.push(('ヌ', "0000"));
    r.push(('ネ', "1101"));
    r.push(('ノ', "0011"));
    r.push(('ハ', "1000"));
    r.push(('ヒ', "11001"));
    r.push(('フ', "1100"));
    r.push(('ヘ', "0"));
    r.push(('ホ', "100"));
    r.push(('マ', "1001"));
    r.push(('ミ', "00101"));
    r.push(('ム', "1"));
    r.push(('メ', "10001"));
    r.push(('モ', "10010"));
    r.push(('ヤ', "011"));
    r.push(('ユ', "10011"));
    r.push(('ヨ', "11"));
    r.push(('ラ', "000"));
    r.push(('リ', "110"));
    r.push(('ル', "10110"));
    r.push(('レ', "111"));
    r.push(('ロ', "0101"));
    r.push(('ワ', "101"));
    r.push(('ヰ', "01001"));
    r.push(('ヱ', "01100"));
    r.push(('ヲ', "0111"));
    r.push(('ン', "01010"));
    r.push(('ー', "01101"));
    r.push(('（', "101101"));
    r.push(('）', "010010"));
    proof { assert(r@ =~= japanese_pairs()); }
    r
}

/// The table of Korean letters, as the contracts see it.
pub open spec fn korean_pairs() -> Seq<(char, &'static str)> {
    seq![
        ('ㄱ', "0100"),
        ('ㄴ', "0010"),
        ('ㄷ', "1000"),
        ('ㄹ', "0001"),
        ('ㅁ', "11"),
        ('ㅂ', "011"),
        ('ㅅ', "110"),
        ('ㅇ', "101"),
        ('ㅈ', "0110"),
        ('ㅊ', "1010"),
        ('ㅋ', "1001"),
        ('ㅌ', "1100"),
        ('ㅍ', "111"),
        ('ㅎ', "0111"),
        ('ㅏ', "0"),
        ('ㅑ', "00"),
        ('ㅓ', "1"),
        ('ㅕ', "000"),
        ('ㅗ', "01"),
        ('ㅛ', "10"),
        ('ㅜ', "0000"),
        ('ㅠ', "010"),
        ('ㅡ', "100"),
        ('ㅣ', "001"),
    ]
}

/// Builds the table of Korean letters.
pub(crate) fn korean_chars() -> (r: Vec<(char, &'static str)>)
    ensures
        r@ == korean_pairs(),
{
    let mut r: Vec<(char, &'static str)> = Vec::new();
    r.push(('ㄱ', "0100"));
    r.push(('ㄴ', "0010"));
    r.push(('ㄷ', "1000"));
    r.push(('ㄹ', "0001"));
    r.push(('ㅁ', "11"));
    r.push(('ㅂ', "011"));
    r.push(('ㅅ', "110"));
    r.push(('ㅇ', "101"));
    r.push(('ㅈ', "0110"));
    r.push(('ㅊ', "1010"));
    r.push(('ㅋ', "1001"));
    r.push(('ㅌ', "1100"));
    r.push(('ㅍ', "111"));
    r.push(('ㅎ', "0111"));
    r.push(('ㅏ', "0"));
    r.push(('ㅑ', "00"));
    r.push(('ㅓ', "1"));
    r.push(('ㅕ', "000"));
    r.push(('ㅗ', "01"));
    r.push(('ㅛ', "10"));
    r.push(('ㅜ', "0000"));
    r.push(('ㅠ', "010"));
    r.push(('ㅡ', "100"));
    r.push(('ㅣ', "001"));
    proof { assert(r@ =~= korean_pairs()); }
    r
}

/// The table of Thai letters and marks, as the contracts see it.
pub open spec fn thai_pairs() -> Seq<(char, &'static str)> {
    seq![
        ('ก', "110"),
        ('ข', "1010"),
        ('ค', "101"),
        ('ง', "10110"),
        ('จ', "10010"),
        ('ฉ', "1111"),
        ('ช', "1001"),
        ('ซ', "1100"),
        ('ญ', "0111"),
        ('ด', "100"),
        ('ต', "1"),
        ('ถ', "10100"),
        ('ท', "10011"),
        ('น', "10"),
        ('บ', "1000"),
        ('ป', "0110"),
        ('ผ', "1101"),
        ('ฝ', "10101"),
        ('พ', "01100"),
        ('ฟ', "0010"),
        ('ม', "11"),
        ('ย', "1011"),
        ('ร', "010"),
        ('ฤ', "01011"),
        ('ล', "0100"),
        ('ว', "011"),
        ('ส', "000"),
        ('ห', "0000"),
        ('อ', "10001"),
        ('ฮ', "11011"),
        ('ฯ', "11010"),
        ('ะ', "01000"),
        ('ั', "01101"),
        ('า', "01"),
        ('ำ', "00010"),
        ('ิ', "00100"),
        ('ี', "00"),
        ('ึ', "00110"),
        ('ื', "0011"),
        ('ุ', "00101"),
        ('ู', "1110"),
        ('เ', "0"),
        ('แ', "0101"),
        ('โ', "111"),
        ('ไ', "01001"),
        ('ๆ', "10111"),
        ('็', "11100"),
        ('่', "001"),
        ('้', "0001"),
        ('๊', "11000"),
        ('๋', "01010"),
        ('์', "11001"),
    ]
}

/// Builds the table of Thai letters and marks.
pub(crate) fn thai_chars() -> (r: Vec<(char, &'static str)>)
    ensures
        r@ == thai_pairs(),
{
    let mut r: Vec<(char, &'static str)> = Vec::new();
    r.push(('ก', "110"));
    r.push(('ข', "1010"));
    r.push(('ค', "101"));
    r.push(('ง', "10110"));
    r.push(('จ', "10010"));
    r.push(('ฉ', "1111"));
    r.push(('ช', "1001"));
    r.push(('ซ', "1100"));
    r.push(('ญ', "0111"));
    r.push(('ด', "100"));
    r.push(('ต', "1"));
    r.push(('ถ', "10100"));
    r.push(('ท', "10011"));
    r.push(('น', "10"));
    r.push(('บ', "1000"));
    r.push(('ป', "0110"));
    r.push(('ผ', "1101"));
    r.push(('ฝ', "10101"));
    r.push(('พ', "01100"));
    r.push(('ฟ', "0010"));
    r.push(('ม', "11"));
    r.push(('ย', "1011"));
    r.push(('ร', "010"));
    r.push(('ฤ', "01011"));
    r.push(('ล', "0100"));
    r.push(('ว', "011"));
    r.push(('ส', "000"));
    r.push(('ห', "0000"));
    r.push(('อ', "10001"));
    r.push(('ฮ', "11011"));
    r.push(('ฯ', "11010"));
    r.push(('ะ', "01000"));
    r.push(('ั', "01101"));
    r.push(('า', "01"));
    r.push(('ำ', "00010"));
    r.push(('ิ', "00100"));
    r.push(('ี', "00"));
    r.push(('ึ', "00110"));
    r.push(('ื', "0011"));
    r.push(('ุ', "00101"));
    r.push(('ู', "1110"));
    r.push(('เ', "0"));
    r.push(('แ', "0101"));
    r.push(('โ', "111"));
    r.push(('ไ', "01001"));
    r.push(('ๆ', "10111"));
    r.push(('็', "11100"));
    r.push(('่', "001"));
    r.push(('้', "0001"));
    r.push(('๊', "11000"));
    r.push(('๋', "01010"));
    r.push(('์', "11001"));
    proof { assert(r@ =~= thai_pairs()); }
    r
}

/// The base table of one script, the empty sequence for `Undefined`.
pub open spec fn script_pairs(set: MorseCharacterSet) -> Seq<(char, &'static str)> {
    match set {
        MorseCharacterSet::Undefined => Seq::empty(),
        MorseCharacterSet::Latin => latin_pairs(),
        MorseCharacterSet::Numbers => numbers_pairs(),
        MorseCharacterSet::Punctuation => punctuation_pairs(),
        MorseCharacterSet::LatinExtended => latin_extended_pairs(),
        MorseCharacterSet::Cyrillic => cyrillic_pairs(),
        MorseCharacterSet::Greek => greek_pairs(),
        MorseCharacterSet::Hebrew => hebrew_pairs(),
        MorseCharacterSet::Arabic => arabic_pairs(),
        MorseCharacterSet::Persian => persian_pairs(),
        MorseCharacterSet::Japanese => japanese_pairs(),
        MorseCharacterSet::Korean => korean_pairs(),
        MorseCharacterSet::Thai => thai_pairs(),
    }
}

/// Builds the base table of one script.
pub(crate) fn script_chars(set: MorseCharacterSet) -> (r: Vec<(char, &'static str)>)
    ensures
        r@ == script_pairs(set),
{
    match set {
        MorseCharacterSet::Undefined => Vec::new(),
        MorseCharacterSet::Latin => latin_chars(),
        MorseCharacterSet::Numbers => numbers_chars(),
        MorseCharacterSet::Punctuation => punctuation_chars(),
        MorseCharacterSet::LatinExtended => latin_extended_chars(),
        MorseCharacterSet::Cyrillic => cyrillic_chars(),
        MorseCharacterSet::Greek => greek_chars(),
        MorseCharacterSet::Hebrew => hebrew_chars(),
        MorseCharacterSet::Arabic => arabic_chars(),
        MorseCharacterSet::Persian => persian_chars(),
        MorseCharacterSet::Japanese => japanese_chars(),
        MorseCharacterSet::Korean => korean_chars(),
        MorseCharacterSet::Thai => thai_chars(),
    }
}

} // verus!
