use axum_crud::text::{is_whitespace, second_token};

#[test]
fn second_token_of_two_words() {
    assert_eq!(second_token("Bearer abc"), Some("abc".to_string()));
}

#[test]
fn second_token_skips_runs_of_white_space() {
    assert_eq!(second_token("  Bearer \t\n  abc   def "), Some("abc".to_string()));
    assert_eq!(second_token("a b"), Some("b".to_string()));
    assert_eq!(second_token("a\u{3000}b\u{2003}c"), Some("b".to_string()));
}

#[test]
fn second_token_is_none_for_fewer_than_two_words() {
    assert_eq!(second_token(""), None);
    assert_eq!(second_token("   "), None);
    assert_eq!(second_token("Bearer"), None);
    assert_eq!(second_token("  Bearer  "), None);
    assert_eq!(second_token("\t\n"), None);
}

#[test]
fn second_token_keeps_characters_beyond_ascii() {
    assert_eq!(second_token("é ünï—cödé x"), Some("ünï—cödé".to_string()));
}

#[test]
fn second_token_agrees_with_the_standard_splitting() {
    let lines = [
        "Bearer x.y.z",
        " leading",
        "trailing ",
        "a  b  c",
        "tab\tseparated\twords",
        "nbsp\u{a0}is white space",
        "zero\u{200b}width is not",
        "\u{85}next\u{2028}line\u{2029}para",
        "\u{1680}ogham\u{202f}narrow\u{205f}math",
        "\u{180e}mongolian vowel",
        "\u{feff}bom second",
        "x\u{b}y\u{c}z",
    ];
    for line in lines {
        let expected = line.split_whitespace().nth(1).map(|w| w.to_string());
        assert_eq!(second_token(line), expected, "{:?}", line);
    }
}

#[test]
fn white_space_is_the_unicode_property() {
    let mut code = 0u32;
    while code <= 0x11_0000 {
        if let Some(c) = char::from_u32(code) {
            assert_eq!(is_whitespace(c), c.is_whitespace(), "U+{:04X}", code);
        }
        code += 1;
    }
}
