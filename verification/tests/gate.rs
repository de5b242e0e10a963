use portable_document_comparator::gate::{blank, parse_answer, GatePolicy, GateStep};

#[test]
fn empty_response_consents() {
    assert_eq!(parse_answer(""), Some(true));
    assert_eq!(parse_answer("\n"), Some(true));
    assert_eq!(parse_answer("\r\n"), Some(true));
    assert_eq!(parse_answer("   \t "), Some(true));
}

#[test]
fn yes_in_any_case_consents() {
    for r in ["y", "Y", "yes", "Yes", "YES", "yEs", "yeS", "YEs", "yES"] {
        assert_eq!(parse_answer(r), Some(true), "{:?}", r);
    }
}

#[test]
fn no_in_any_case_refuses() {
    for r in ["n", "N", "no", "No", "NO", "nO"] {
        assert_eq!(parse_answer(r), Some(false), "{:?}", r);
    }
}

#[test]
fn white_space_around_a_response_does_not_count() {
    assert_eq!(parse_answer("y\n"), Some(true));
    assert_eq!(parse_answer("  yes  \r\n"), Some(true));
    assert_eq!(parse_answer("\tno\n"), Some(false));
    assert_eq!(parse_answer("\u{a0}N\u{2003}"), Some(false));
    assert_eq!(parse_answer("\u{3000}Yes\u{85}"), Some(true));
}

#[test]
fn anything_else_is_no_answer() {
    for r in [
        "maybe", "ye", "yess", "yes!", "y es", "n o", "nope", "non", "yy", "0", "1", "true",
        "ja", "oui", "yes no", "y\u{200b}", "\u{fe}", "Y\u{45}\u{53}\u{53}", "9", "N0", "Yea",
        "\u{59}\u{45}", "\u{39}es", "\u{4e}\u{4f}\u{4f}", "y\u{e9}s",
    ] {
        assert_eq!(parse_answer(r), None, "{:?}", r);
    }
}

#[test]
fn characters_just_below_the_letters_are_no_letters() {
    assert_eq!(parse_answer("\u{59}"), Some(true));
    assert_eq!(parse_answer("\u{58}"), None);
    assert_eq!(parse_answer("\u{5a}"), None);
    assert_eq!(parse_answer("\u{4d}"), None);
    assert_eq!(parse_answer("\u{6e}\u{2f}"), None);
    assert_eq!(parse_answer("\u{6e}\u{4f}"), Some(false));
    assert_eq!(parse_answer("y\u{25}s"), None);
    assert_eq!(parse_answer("ye\u{33}"), None);
}

#[test]
fn blank_agrees_with_unicode_white_space() {
    for code in 0u32..0x4000 {
        if let Some(c) = char::from_u32(code) {
            assert_eq!(blank(c), c.is_whitespace(), "U+{:04X}", code);
        }
    }
    assert!(!blank('\u{180e}'));
    assert!(!blank('\u{200b}'));
    assert!(!blank('\u{feff}'));
    assert!(!blank('\u{10ffff}'));
}

#[test]
fn parsing_agrees_with_trimming_and_folding() {
    let cores = ["", "y", "yes", "n", "no", "x", "yes!", "ye", "y s"];
    let pads = ["", " ", "\n", "\t \r\n", "\u{2028}"];
    for core in cores {
        for before in pads {
            for after in pads {
                let text = format!("{}{}{}", before, core, after);
                let word = text.trim().to_ascii_lowercase();
                let expected = match word.as_str() {
                    "" | "y" | "yes" => Some(true),
                    "n" | "no" => Some(false),
                    _ => None,
                };
                assert_eq!(parse_answer(&text), expected, "{:?}", text);
                assert_eq!(parse_answer(&text.to_uppercase()), expected, "{:?}", text);
            }
        }
    }
}

#[test]
fn an_operator_is_asked_until_the_response_can_be_read() {
    let gate = GatePolicy::Ask;
    assert_eq!(gate.begin(), GateStep::Prompt);
    assert_eq!(gate.hear("what?\n"), GateStep::Prompt);
    assert_eq!(gate.hear("nah\n"), GateStep::Prompt);
    assert_eq!(gate.hear("No\n"), GateStep::Decided(false));
    assert_eq!(gate.hear("\n"), GateStep::Decided(true));
    assert_eq!(gate.hear("YES\n"), GateStep::Decided(true));
}

#[test]
fn a_fixed_answer_asks_nobody() {
    assert_eq!(GatePolicy::Fixed(true).begin(), GateStep::Decided(true));
    assert_eq!(GatePolicy::Fixed(false).begin(), GateStep::Decided(false));
    assert_eq!(GatePolicy::Fixed(true).hear("no"), GateStep::Decided(true));
    assert_eq!(GatePolicy::Fixed(false).hear("yes"), GateStep::Decided(false));
}
