use morsify::InvalidCharPolicy;
use morsify::MorseCharacterSet;
use morsify::MorseCode;
use morsify::Options;

#[test]
fn encodes_english_alphabet() {
    assert_eq!(MorseCode::default().encode("the quick brown fox jumps over the lazy dog"), "- .... . / --.- ..- .. -.-. -.- / -... .-. --- .-- -. / ..-. --- -..- / .--- ..- -- .--. ... / --- ...- . .-. / - .... . / .-.. .- --.. -.-- / -.. --- --.");
    assert_eq!(MorseCode::new(Options { dash: '–', dot: '•', space: '\\', ..Default::default() }).encode("the quick brown fox jumps over the lazy dog"), "– •••• • \\ ––•– ••– •• –•–• –•– \\ –••• •–• ––– •–– –• \\ ••–• ––– –••– \\ •––– ••– –– •––• ••• \\ ––– •••– • •–• \\ – •••• • \\ •–•• •– ––•• –•–– \\ –•• ––– ––•");
}

#[test]
fn decodes_english_alphabet() {
    assert_eq!(MorseCode::default().decode("- .... . / --.- ..- .. -.-. -.- / -... .-. --- .-- -. / ..-. --- -..- / .--- ..- -- .--. ... / --- ...- . .-. / - .... . / .-.. .- --.. -.-- / -.. --- --."), "THE QUICK BROWN FOX JUMPS OVER THE LAZY DOG");
    assert_eq!(MorseCode::new(Options { dash: '–', dot: '•', space: '\\', ..Default::default() }).decode("– •••• • \\ ––•– ••– •• –•–• –•– \\ –••• •–• ––– •–– –• \\ ••–• ––– –••– \\ •––– ••– –– •––• ••• \\ ––– •••– • •–• \\ – •••• • \\ •–•• •– ––•• –•–– \\ –•• ––– ––•"), "THE QUICK BROWN FOX JUMPS OVER THE LAZY DOG");
}

#[test]
fn decodes_numbers() {
    assert_eq!(
        MorseCode::default().decode("----- .---- ..--- ...-- ....- ..... -.... --... ---.. ----."),
        "0123456789"
    );
}

#[test]
fn encodes_punctuation() {
    let morse_code = MorseCode::default();
    assert_eq!(
        morse_code.encode(".,?'!/("),
        ".-.-.- --..-- ..--.. .----. -.-.-- -..-. -.--."
    );
    assert_eq!(
        morse_code.encode(")&:;=¿¡"),
        "-.--.- .-... ---... -.-.-. -...- ..-.- --...-"
    );
}

#[test]
fn decodes_punctuation() {
    let morse_code = MorseCode::default();
    assert_eq!(
        morse_code.decode(".-.-.- --..-- ..--.. .----. -.-.-- -..-. -.--."),
        ".,?'!/("
    );
    assert_eq!(
        morse_code.decode("-.--.- .-... ---... -.-.-. -...- ..-.- --...-"),
        ")&:;=¿¡"
    );
}

#[test]
fn encodes_non_english_alphabet() {
    let morse_code = MorseCode::default();
    assert_eq!(
        morse_code.encode("ÃÁÅÀÂÄ"),
        ".--.- .--.- .--.- .--.- .--.- .-.-"
    );
    assert_eq!(
        morse_code.encode("ĄÆÇĆĈČ"),
        ".-.- .-.- -.-.. -.-.. -.-.. --."
    );
    assert_eq!(
        morse_code.encode("ĘÐÈËĘÉ"),
        "..-.. ..--. .-..- ..-.. ..-.. ..-.."
    );
    assert_eq!(
        morse_code.encode("ÊĞĜĤİÏ"),
        "-..-. --.-. --.-. ---- .-..- -..--"
    );
    assert_eq!(
        morse_code.encode("ÌĴŁŃÑÓ"),
        ".---. .---. .-..- --.-- --.-- ---."
    );
    assert_eq!(
        morse_code.encode("ÒÖÔØŚŞ"),
        "---. ---. ---. ---. ...-... .--.."
    );
    assert_eq!(
        morse_code.encode("ȘŠŜßÞÜ"),
        "---- ---- ...-. ... ... .--.. ..--"
    );
    assert_eq!(morse_code.encode("ÙŬŽŹŻ"), "..-- ..-- --..- --..-. --..-");
}

#[test]
fn encodes_with_custom_glyphs_by_substitution() {
    let default_encoder = MorseCode::default();
    let custom = MorseCode::new(Options { dash: '–', dot: '•', space: '\\', ..Default::default() });
    let plain = default_encoder.encode("the quick");
    let substituted: String = plain
        .chars()
        .map(|c| match c {
            '-' => '–',
            '.' => '•',
            '/' => '\\',
            other => other,
        })
        .collect();
    assert_eq!(custom.encode("the quick"), substituted);
}

#[test]
fn encodes_empty_input_to_empty_output() {
    let morse_code = MorseCode::default();
    assert_eq!(morse_code.encode(""), "");
    assert_eq!(morse_code.decode(""), "");
}

#[test]
fn encodes_case_insensitively() {
    let morse_code = MorseCode::default();
    assert_eq!(morse_code.encode("Hello World"), morse_code.encode("HELLO WORLD"));
    assert_eq!(morse_code.encode("привет"), morse_code.encode("ПРИВЕТ"));
}

#[test]
fn collapses_whitespace_and_trims_edges() {
    let morse_code = MorseCode::default();
    assert_eq!(morse_code.encode("  a \t b  "), ".- / -...");
    assert_eq!(morse_code.decode("   .-   -...   "), "AB");
}

#[test]
fn echoes_unknown_characters() {
    let morse_code = MorseCode::default();
    assert_eq!(morse_code.encode("a~b"), ".- ~ -...");
    let marking = MorseCode::new(Options {
        invalid_char: InvalidCharPolicy::Substitute('#'),
        ..Default::default()
    });
    assert_eq!(marking.encode("a~b"), ".- # -...");
}

#[test]
fn passes_unknown_units_through_when_decoding() {
    let morse_code = MorseCode::default();
    assert_eq!(morse_code.decode(".- ...---... -..."), "A...---...B");
}

#[test]
fn round_trips_latin_text() {
    let morse_code = MorseCode::default();
    let text = "verified morse tables";
    assert_eq!(morse_code.decode(&morse_code.encode(text)), "VERIFIED MORSE TABLES");
}

#[test]
fn round_trips_non_latin_scripts_only_under_priority() {
    // With Cyrillic as the priority script the round trip restores the
    // Cyrillic letters; with the default (Latin) priority the shared
    // patterns decode to the Latin letters that won the collision.
    let cyrillic = MorseCode::new(Options {
        priority: MorseCharacterSet::Cyrillic,
        ..Default::default()
    });
    let encoded = cyrillic.encode("море");
    assert_eq!(encoded, "-- --- .-. .");
    assert_eq!(cyrillic.decode(&encoded), "МОРЕ");
    let latin = MorseCode::default();
    assert_eq!(latin.encode("море"), "-- --- .-. .");
    assert_eq!(latin.decode(&encoded), "MORE");
}

#[test]
fn decodes_word_space_glyph_to_separator() {
    let morse_code = MorseCode::default();
    assert_eq!(morse_code.encode("a b"), ".- / -...");
    assert_eq!(morse_code.decode(".- / -..."), "A B");
}

#[test]
fn encodes_other_scripts() {
    let morse_code = MorseCode::default();
    assert_eq!(morse_code.encode("ΑΒΓ"), ".- -... --.");
    assert_eq!(morse_code.encode("אבג"), ".- -... --.");
    assert_eq!(morse_code.encode("اب"), ".- -...");
    assert_eq!(morse_code.encode("กข"), "--. -.-.");
    assert_eq!(morse_code.encode("ㄱㄴ"), ".-.. ..-.");
    assert_eq!(morse_code.encode("アイ"), "--.-- .-");
}

#[test]
fn encodes_without_overlay_for_undefined_priority() {
    let no_overlay = MorseCode::new(Options {
        priority: MorseCharacterSet::Undefined,
        ..Default::default()
    });
    assert_eq!(no_overlay.encode("sos"), "... --- ...");
    assert_eq!(no_overlay.decode("... --- ..."), "SOS");
}

#[test]
fn builds_tables_for_inspection() {
    let tables = morsify::build_tables(Options::default(), true);
    // the Latin overlay leads, and its first entry is the letter A
    assert_eq!(tables[0], ('A', ".-".to_string()));
    // without the overlay the word-gap entry comes first
    let bare = morsify::build_tables(Options::default(), false);
    assert_eq!(bare[0], (' ', "/".to_string()));
    // the base tables follow, Cyrillic among them
    assert!(tables.iter().any(|e| *e == ('Ж', "...-".to_string())));
}
