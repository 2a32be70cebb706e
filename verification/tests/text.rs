use codex_monitor::text::{is_white_space, non_blank_text, trim};

fn listed_white_space(c: char) -> bool {
    let n = c as u32;
    n == 0x20
        || (0x09..=0x0D).contains(&n)
        || n == 0x85
        || n == 0xA0
        || n == 0x1680
        || (0x2000..=0x200A).contains(&n)
        || n == 0x2028
        || n == 0x2029
        || n == 0x202F
        || n == 0x205F
        || n == 0x3000
}

#[test]
fn trim_removes_white_space_at_both_ends() {
    assert_eq!(trim("  a b \t"), "a b");
    assert_eq!(trim("a"), "a");
    assert_eq!(trim(""), "");
    assert_eq!(trim(" \n\r\t "), "");
    assert_eq!(trim("\u{2003}x y\u{3000}\u{205f}"), "x y");
    assert_eq!(trim("x  "), "x");
    assert_eq!(trim("  x"), "x");
}

#[test]
fn trim_keeps_what_is_not_white_space() {
    assert_eq!(trim("\u{200b}x\u{200b}"), "\u{200b}x\u{200b}");
    assert_eq!(trim("\u{feff}x"), "\u{feff}x");
    assert_eq!(trim("\u{180e}x"), "\u{180e}x");
    assert_eq!(trim("\u{1c}x"), "\u{1c}x");
    assert_eq!(trim("é à"), "é à");
}

#[test]
fn trim_agrees_with_the_listed_white_space_on_every_character() {
    let mut checked: u32 = 0;
    for n in 0..=0x10FFFFu32 {
        if let Some(c) = char::from_u32(n) {
            let text = format!("{}x{}", c, c);
            let expected = if listed_white_space(c) {
                "x".to_string()
            } else {
                text.clone()
            };
            assert_eq!(trim(&text), expected, "code point {:#x}", n);
            checked += 1;
        }
    }
    assert_eq!(checked, 0x110000 - 0x800);
}

#[test]
fn trim_agrees_with_std() {
    for text in [
        "",
        " ",
        "a",
        " a",
        "a ",
        "  a  b  ",
        "\t\u{a0}tab\u{85}",
        "ünï cödé ",
        "\u{2028}\u{2029}",
    ] {
        assert_eq!(trim(text), text.trim());
    }
}

#[test]
fn non_blank_text_is_none_exactly_for_blank_input() {
    assert_eq!(non_blank_text(""), None);
    assert_eq!(non_blank_text("   "), None);
    assert_eq!(non_blank_text("\u{3000}\n"), None);
    assert_eq!(non_blank_text(" token "), Some("token".to_string()));
    assert_eq!(non_blank_text("\u{200b}"), Some("\u{200b}".to_string()));
}

#[test]
fn white_space_is_what_std_calls_white_space() {
    for n in 0..=0x10FFFFu32 {
        if let Some(c) = char::from_u32(n) {
            assert_eq!(is_white_space(c), c.is_whitespace(), "code point {:#x}", n);
            assert_eq!(is_white_space(c), listed_white_space(c), "code point {:#x}", n);
        }
    }
}
