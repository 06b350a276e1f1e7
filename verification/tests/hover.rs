use ghostty_lsp::definitions::FALLBACK;
use ghostty_lsp::hover::{hover_at, hover_contents, line_at, parameter_key, Hover, NO_HOVER};
use ghostty_lsp::strings::{chars_of, find_char, str_eq, trim_bounds};

#[test]
fn no_hover_is_the_documented_sentinel() {
    assert_eq!(NO_HOVER, "No hover contents found");
}

#[test]
fn the_first_equals_sign_ends_the_key() {
    assert_eq!(parameter_key("a=b=c"), Some("a"));
    assert_ne!(parameter_key("a=b=c"), Some("a=b"));
    assert_eq!(parameter_key("keybind = ctrl+a=csi:A"), Some("keybind"));
}

#[test]
fn white_space_around_the_key_is_trimmed() {
    assert_eq!(parameter_key("  font-size   =  12"), Some("font-size"));
    assert_eq!(parameter_key("\tfont-size\t= 12"), Some("font-size"));
    assert_eq!(parameter_key("font size = 12"), Some("font size"));
}

#[test]
fn white_space_is_what_unicode_calls_white_space() {
    assert_eq!(parameter_key("\u{a0}theme\u{2003}\u{3000}= dark"), Some("theme"));
    assert_eq!(parameter_key("\u{200b}theme = dark"), Some("\u{200b}theme"));
    assert_eq!(parameter_key("_theme_ = dark"), Some("_theme_"));
}

#[test]
fn every_character_is_trimmed_or_kept_as_unicode_says() {
    let white_space = [
        ('\u{9}', '\u{d}'),
        (' ', ' '),
        ('\u{85}', '\u{85}'),
        ('\u{a0}', '\u{a0}'),
        ('\u{1680}', '\u{1680}'),
        ('\u{2000}', '\u{200a}'),
        ('\u{2028}', '\u{2029}'),
        ('\u{202f}', '\u{202f}'),
        ('\u{205f}', '\u{205f}'),
        ('\u{3000}', '\u{3000}'),
    ];
    let mut trimmed = 0;
    for c in '\0'..=char::MAX {
        let listed = white_space.iter().any(|(first, last)| *first <= c && c <= *last);
        let (from, to) = trim_bounds(&vec![c], 0, 1);
        assert_eq!(to - from == 0, listed, "character {c:?}");
        if listed {
            trimmed += 1;
        }
    }
    assert_eq!(trimmed, 25);
}

#[test]
fn a_line_without_equals_sets_no_key() {
    assert_eq!(parameter_key("font-size 12"), None);
    assert_eq!(parameter_key(""), None);
    assert_eq!(parameter_key("   "), None);
    assert_eq!(parameter_key("# a comment"), None);
}

#[test]
fn an_empty_key_is_still_a_key() {
    assert_eq!(parameter_key("=value"), Some(""));
    assert_eq!(parameter_key("   = value"), Some(""));
    assert_eq!(parameter_key("="), Some(""));
}

#[test]
fn keys_may_hold_any_characters() {
    assert_eq!(parameter_key(" schlüssel = wert"), Some("schlüssel"));
    assert_eq!(parameter_key("字体 = 12"), Some("字体"));
}

#[test]
fn lines_end_at_line_feeds() {
    let doc = "one\ntwo\n\nfour";
    assert_eq!(line_at(doc, 0), Some("one"));
    assert_eq!(line_at(doc, 1), Some("two"));
    assert_eq!(line_at(doc, 2), Some(""));
    assert_eq!(line_at(doc, 3), Some("four"));
    assert_eq!(line_at(doc, 4), None);
}

#[test]
fn a_final_line_feed_starts_no_line() {
    assert_eq!(line_at("one\n", 0), Some("one"));
    assert_eq!(line_at("one\n", 1), None);
    assert_eq!(line_at("\n", 0), Some(""));
    assert_eq!(line_at("\n", 1), None);
    assert_eq!(line_at("", 0), None);
}

#[test]
fn a_carriage_return_before_a_line_feed_ends_the_line_too() {
    let doc = "one\r\ntwo\r\n";
    assert_eq!(line_at(doc, 0), Some("one"));
    assert_eq!(line_at(doc, 1), Some("two"));
    assert_eq!(line_at(doc, 2), None);
    assert_eq!(line_at("a\rb\n", 0), Some("a\rb"));
    assert_eq!(line_at("one\r", 0), Some("one\r"));
    assert_eq!(line_at("\r\n", 0), Some(""));
}

#[test]
fn lines_are_those_of_std() {
    for doc in ["", "a", "a\n", "a\nb", "a\r\nb\r\n", "\n\n", "a\r", "\r\n\r\n", "ä\nö\r\nü", "a\n\rb"] {
        let expected: Vec<&str> = doc.lines().collect();
        for (index, line) in expected.iter().enumerate() {
            assert_eq!(line_at(doc, index), Some(*line), "line {index} of {doc:?}");
        }
        assert_eq!(line_at(doc, expected.len()), None, "past the end of {doc:?}");
    }
}

#[test]
fn keys_are_split_and_trimmed_as_std_does() {
    let lines = [
        "a=b=c",
        "  font-size   =  12",
        "=",
        " = ",
        "\u{a0}\u{1680}theme\u{2028}\u{2029}=x",
        "\u{85}k\u{202f}\u{205f}=\u{3000}",
        "\u{b}\u{c}key\r=1",
        "k e y=",
        "\u{feff}key=1",
        "ключ = значение",
    ];
    for line in lines {
        let expected = line.split('=').next().unwrap().trim();
        assert_eq!(parameter_key(line), Some(expected), "line {line:?}");
    }
}

#[test]
fn hover_finds_the_description_of_the_line() {
    let doc = "font-size = 12\nbackground = #000000\n";
    assert_eq!(hover_contents(doc, 0), "Font size in points");
    assert_eq!(hover_contents(doc, 1), "Background color for the window");
    assert_eq!(hover_contents(doc, 5), "No hover contents found");
}

#[test]
fn a_hover_is_one_plain_string_with_no_range() {
    let doc = "font-size = 12\nbackground = #000000\n";
    let font_size = Hover { contents: "Font size in points".to_string(), range: None };
    assert_eq!(hover_at(doc, 0), font_size);
    let nothing = Hover { contents: "No hover contents found".to_string(), range: None };
    assert_eq!(hover_at(doc, 5), nothing);
    assert_eq!(hover_at("", 0), nothing);
}

#[test]
fn hover_past_the_last_line_finds_nothing() {
    let doc = "font-size = 12\nbackground = #000000\n";
    assert_eq!(hover_contents(doc, 2), NO_HOVER);
    assert_eq!(hover_contents(doc, 3), NO_HOVER);
    assert_eq!(hover_contents(doc, usize::MAX), NO_HOVER);
}

#[test]
fn hover_before_any_text_finds_nothing() {
    assert_eq!(hover_contents("", 0), NO_HOVER);
    assert_eq!(hover_contents("", 7), NO_HOVER);
}

#[test]
fn hover_on_a_line_without_a_key_finds_nothing() {
    let doc = "# settings\n\nfont-size = 12";
    assert_eq!(hover_contents(doc, 0), NO_HOVER);
    assert_eq!(hover_contents(doc, 1), NO_HOVER);
    assert_eq!(hover_contents(doc, 2), "Font size in points");
}

#[test]
fn hover_on_an_unknown_key_gets_the_fallback() {
    let doc = "=value\nno-such-key = 1\nFont-Size = 12\n";
    assert_eq!(hover_contents(doc, 0), "No description found");
    assert_eq!(hover_contents(doc, 1), FALLBACK);
    assert_eq!(hover_contents(doc, 2), FALLBACK);
}

#[test]
fn hover_ignores_equals_signs_in_the_value() {
    let doc = "palette = 0=#000000\r\n  theme=a=b";
    assert_eq!(
        hover_contents(doc, 0),
        ghostty_lsp::definitions::get_config_param_description("palette")
    );
    assert_eq!(
        hover_contents(doc, 1),
        ghostty_lsp::definitions::get_config_param_description("theme")
    );
}

#[test]
fn strings_are_compared_by_their_characters() {
    assert!(str_eq("", ""));
    assert!(str_eq("theme", "theme"));
    assert!(!str_eq("theme", "themes"));
    assert!(!str_eq("theme", "thyme"));
    assert!(!str_eq("a", ""));
    assert!(str_eq("字体", "字体"));
    assert!(!str_eq("字体", "字"));
}

#[test]
fn characters_come_out_in_order() {
    assert_eq!(chars_of(""), Vec::<char>::new());
    assert_eq!(chars_of("a=ö"), vec!['a', '=', 'ö']);
}

#[test]
fn find_char_stops_at_the_first_match_or_the_end() {
    let chars = chars_of("a=b=c");
    assert_eq!(find_char(&chars, 0, 5, '='), 1);
    assert_eq!(find_char(&chars, 2, 5, '='), 3);
    assert_eq!(find_char(&chars, 4, 5, '='), 5);
    assert_eq!(find_char(&chars, 0, 1, '='), 1);
    assert_eq!(find_char(&chars, 3, 3, '='), 3);
}

#[test]
fn trim_bounds_frame_what_is_left() {
    let chars = chars_of("  ab c \t");
    assert_eq!(trim_bounds(&chars, 0, 8), (2, 6));
    assert_eq!(trim_bounds(&chars, 0, 2), (2, 2));
    assert_eq!(trim_bounds(&chars, 3, 5), (3, 4));
    assert_eq!(trim_bounds(&chars, 4, 4), (4, 4));
}
