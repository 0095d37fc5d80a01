//! Simple case folding toward the uppercase table keys.
//!
//! Every table lists its cased characters in upper case, so input text
//! is folded to upper case before lookup. The fold covers the cased
//! scripts that the tables know: Latin letters, the extended Latin
//! letters of the tables, Greek (including the final sigma) and
//! Cyrillic. The sharp s folds to the two-letter `SS`, as full
//! uppercasing demands; every other character folds to one character.

use vstd::prelude::*;

verus! {

/// The uppercase counterpart of a single character, itself where the
/// fold does not know the character (in particular where it is already
/// upper case or belongs to an uncased script).
pub open spec fn upper_char(c: char) -> char {

    if c == 'a' {
        'A'
    } else if c == 'b' {
        'B'
    } else if c == 'c' {
        'C'
    } else if c == 'd' {
        'D'
    } else if c == 'e' {
        'E'
    } else if c == 'f' {
        'F'
    } else if c == 'g' {
        'G'
    } else if c == 'h' {
        'H'
    } else if c == 'i' {
        'I'
    } else if c == 'j' {
        'J'
    } else if c == 'k' {
        'K'
    } else if c == 'l' {
        'L'
    } else if c == 'm' {
        'M'
    } else if c == 'n' {
        'N'
    } else if c == 'o' {
        'O'
    } else if c == 'p' {
        'P'
    } else if c == 'q' {
        'Q'
    } else if c == 'r' {
        'R'
    } else if c == 's' {
        'S'
    } else if c == 't' {
        'T'
    } else if c == 'u' {
        'U'
    } else if c == 'v' {
        'V'
    } else if c == 'w' {
        'W'
    } else if c == 'x' {
        'X'
    } else if c == 'y' {
        'Y'
    } else if c == 'z' {
        'Z'
    } else if c == 'à' {
        'À'
    } else if c == 'á' {
        'Á'
    } else if c == 'â' {
        'Â'
    } else if c == 'ã' {
        'Ã'
    } else if c == 'ä' {
        'Ä'
    } else if c == 'å' {
        'Å'
    } else if c == 'æ' {
        'Æ'
    } else if c == 'ç' {
        'Ç'
    } else if c == 'è' {
        'È'
    } else if c == 'é' {
        'É'
    } else if c == 'ê' {
        'Ê'
    } else if c == 'ë' {
        'Ë'
    } else if c == 'ì' {
        'Ì'
    } else if c == 'ï' {
        'Ï'
    } else if c == 'ð' {
        'Ð'
    } else if c == 'ñ' {
        'Ñ'
    } else if c == 'ò' {
        'Ò'
    } else if c == 'ó' {
        'Ó'
    } else if c == 'ô' {
        'Ô'
    } else if c == 'ö' {
        'Ö'
    } else if c == 'ø' {
        'Ø'
    } else if c == 'ù' {
        'Ù'
    } else if c == 'ü' {
        'Ü'
    } else if c == 'þ' {
        'Þ'
    } else if c == 'ą' {
        'Ą'
    } else if c == 'ć' {
        'Ć'
    } else if c == 'ĉ' {
        'Ĉ'
    } else if c == 'č' {
        'Č'
    } else if c == 'ę' {
        'Ę'
    } else if c == 'ĝ' {
        'Ĝ'
    } else if c == 'ğ' {
        'Ğ'
    } else if c == 'ĥ' {
        'Ĥ'
    } else if c == 'ĵ' {
        'Ĵ'
    } else if c == 'ł' {
        'Ł'
    } else if c == 'ń' {
        'Ń'
    } else if c == 'ś' {
        'Ś'
    } else if c == 'ŝ' {
        'Ŝ'
    } else if c == 'ş' {
        'Ş'
    } else if c == 'š' {
        'Š'
    } else if c == 'ŭ' {
        'Ŭ'
    } else if c == 'ź' {
        'Ź'
    } else if c == 'ż' {
        'Ż'
    } else if c == 'ž' {
        'Ž'
    } else if c == 'ș' {
        'Ș'
    } else if c == 'α' {
        'Α'
    } else if c == 'β' {
        'Β'
    } else if c == 'γ' {
        'Γ'
    } else if c == 'δ' {
        'Δ'
    } else if c == 'ε' {
        'Ε'
    } else if c == 'ζ' {
        'Ζ'
    } else if c == 'η' {
        'Η'
    } else if c == 'θ' {
        'Θ'
    } else if c == 'ι' {
        'Ι'
    } else if c == 'κ' {
        'Κ'
    } else if c == 'λ' {
        'Λ'
    } else if c == 'μ' {
        'Μ'
    } else if c == 'ν' {
        'Ν'
    } else if c == 'ξ' {
        'Ξ'
    } else if c == 'ο' {
        'Ο'
    } else if c == 'π' {
        'Π'
    } else if c == 'ρ' {
        'Ρ'
    } else if c == 'ς' {
        'Σ'
    } else if c == 'σ' {
        'Σ'
    } else if c == 'τ' {
        'Τ'
    } else if c == 'υ' {
        'Υ'
    } else if c == 'φ' {
        'Φ'
    } else if c == 'χ' {
        'Χ'
    } else if c == 'ψ' {
        'Ψ'
    } else if c == 'ω' {
        'Ω'
    } else if c == 'а' {
        'А'
    } else if c == 'б' {
        'Б'
    } else if c == 'в' {
        'В'
    } else if c == 'г' {
        'Г'
    } else if c == 'д' {
        'Д'
    } else if c == 'е' {
        'Е'
    } else if c == 'ж' {
        'Ж'
    } else if c == 'з' {
        'З'
    } else if c == 'и' {
        'И'
    } else if c == 'й' {
        'Й'
    } else if c == 'к' {
        'К'
    } else if c == 'л' {
        'Л'
    } else if c == 'м' {
        'М'
    } else if c == 'н' {
        'Н'
    } else if c == 'о' {
        'О'
    } else if c == 'п' {
        'П'
    } else if c == 'р' {
        'Р'
    } else if c == 'с' {
        'С'
    } else if c == 'т' {
        'Т'
    } else if c == 'у' {
        'У'
    } else if c == 'ф' {
        'Ф'
    } else if c == 'х' {
        'Х'
    } else if c == 'ц' {
        'Ц'
    } else if c == 'ч' {
        'Ч'
    } else if c == 'ш' {
        'Ш'
    } else if c == 'щ' {
        'Щ'
    } else if c == 'ъ' {
        'Ъ'
    } else if c == 'ы' {
        'Ы'
    } else if c == 'ь' {
        'Ь'
    } else if c == 'э' {
        'Э'
    } else if c == 'ю' {
        'Ю'
    } else if c == 'я' {
        'Я'
    } else if c == 'є' {
        'Є'
    } else if c == 'і' {
        'І'
    } else if c == 'ї' {
        'Ї'
    } else if c == 'ґ' {
        'Ґ'
    } else {
        c
    }
}

/// What one character of input folds to: `SS` for the sharp s, the
/// uppercase counterpart for everything else. The result is never
/// empty.
pub open spec fn fold_char(c: char) -> Seq<char> {
    if c == '\u{df}' {
        seq!['S', 'S']
    } else {
        seq![upper_char(c)]
    }
}

/// The fold of a whole sequence of characters, character by character.
pub open spec fn fold_seq(s: Seq<char>) -> Seq<char>
    decreases s.len(),
{
    if s.len() == 0 {
        Seq::empty()
    } else {
        fold_char(s[0]) + fold_seq(s.drop_first())
    }
}

/// Folds a single character.
pub(crate) fn upper_of(c: char) -> (r: char)
    ensures
        r == upper_char(c),
{
    match c {

        'a' => 'A',
        'b' => 'B',
        'c' => 'C',
        'd' => 'D',
        'e' => 'E',
        'f' => 'F',
        'g' => 'G',
        'h' => 'H',
        'i' => 'I',
        'j' => 'J',
        'k' => 'K',
        'l' => 'L',
        'm' => 'M',
        'n' => 'N',
        'o' => 'O',
        'p' => 'P',
        'q' => 'Q',
        'r' => 'R',
        's' => 'S',
        't' => 'T',
        'u' => 'U',
        'v' => 'V',
        'w' => 'W',
        'x' => 'X',
        'y' => 'Y',
        'z' => 'Z',
        'à' => 'À',
        'á' => 'Á',
        'â' => 'Â',
        'ã' => 'Ã',
        'ä' => 'Ä',
        'å' => 'Å',
        'æ' => 'Æ',
        'ç' => 'Ç',
        'è' => 'È',
        'é' => 'É',
        'ê' => 'Ê',
        'ë' => 'Ë',
        'ì' => 'Ì',
        'ï' => 'Ï',
        'ð' => 'Ð',
        'ñ' => 'Ñ',
        'ò' => 'Ò',
        'ó' => 'Ó',
        'ô' => 'Ô',
        'ö' => 'Ö',
        'ø' => 'Ø',
        'ù' => 'Ù',
        'ü' => 'Ü',
        'þ' => 'Þ',
        'ą' => 'Ą',
        'ć' => 'Ć',
        'ĉ' => 'Ĉ',
        'č' => 'Č',
        'ę' => 'Ę',
        'ĝ' => 'Ĝ',
        'ğ' => 'Ğ',
        'ĥ' => 'Ĥ',
        'ĵ' => 'Ĵ',
        'ł' => 'Ł',
        'ń' => 'Ń',
        'ś' => 'Ś',
        'ŝ' => 'Ŝ',
        'ş' => 'Ş',
        'š' => 'Š',
        'ŭ' => 'Ŭ',
        'ź' => 'Ź',
        'ż' => 'Ż',
        'ž' => 'Ž',
        'ș' => 'Ș',
        'α' => 'Α',
        'β' => 'Β',
        'γ' => 'Γ',
        'δ' => 'Δ',
        'ε' => 'Ε',
        'ζ' => 'Ζ',
        'η' => 'Η',
        'θ' => 'Θ',
        'ι' => 'Ι',
        'κ' => 'Κ',
        'λ' => 'Λ',
        'μ' => 'Μ',
        'ν' => 'Ν',
        'ξ' => 'Ξ',
        'ο' => 'Ο',
        'π' => 'Π',
        'ρ' => 'Ρ',
        'ς' => 'Σ',
        'σ' => 'Σ',
        'τ' => 'Τ',
        'υ' => 'Υ',
        'φ' => 'Φ',
        'χ' => 'Χ',
        'ψ' => 'Ψ',
        'ω' => 'Ω',
        'а' => 'А',
        'б' => 'Б',
        'в' => 'В',
        'г' => 'Г',
        'д' => 'Д',
        'е' => 'Е',
        'ж' => 'Ж',
        'з' => 'З',
        'и' => 'И',
        'й' => 'Й',
        'к' => 'К',
        'л' => 'Л',
        'м' => 'М',
        'н' => 'Н',
        'о' => 'О',
        'п' => 'П',
        'р' => 'Р',
        'с' => 'С',
        'т' => 'Т',
        'у' => 'У',
        'ф' => 'Ф',
        'х' => 'Х',
        'ц' => 'Ц',
        'ч' => 'Ч',
        'ш' => 'Ш',
        'щ' => 'Щ',
        'ъ' => 'Ъ',
        'ы' => 'Ы',
        'ь' => 'Ь',
        'э' => 'Э',
        'ю' => 'Ю',
        'я' => 'Я',
        'є' => 'Є',
        'і' => 'І',
        'ї' => 'Ї',
        'ґ' => 'Ґ',
        _ => c,
    }
}

/// Appends the fold of one character to a buffer.
pub(crate) fn fold_push(out: &mut Vec<char>, c: char)
    ensures
        final(out)@ == old(out)@ + fold_char(c),
{
    if c == '\u{df}' {
        out.push('S');
        out.push('S');
    } else {
        let u = upper_of(c);
        out.push(u);
    }
    proof {
        assert(out@ =~= old(out)@ + fold_char(c));
    }
}

} // verus!
