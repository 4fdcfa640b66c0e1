use fruitdata::names::fold_ascii_case;
use fruitdata::{is_whitespace, names_match, trim};

#[test]
fn whitespace_is_what_the_standard_library_says() {
    let mut code: u32 = 0;
    while code <= 0x10FFFF {
        if let Some(c) = char::from_u32(code) {
            assert_eq!(is_whitespace(c), c.is_whitespace(), "U+{:04X}", code);
        }
        code += 1;
    }
}

#[test]
fn whitespace_samples() {
    assert!(is_whitespace(' '));
    assert!(is_whitespace('\t'));
    assert!(is_whitespace('\n'));
    assert!(is_whitespace('\u{000B}'));
    assert!(is_whitespace('\u{00A0}'));
    assert!(is_whitespace('\u{3000}'));
    assert!(!is_whitespace('a'));
    assert!(!is_whitespace('\u{200B}'));
    assert!(!is_whitespace('\u{180E}'));
    assert!(!is_whitespace('\u{0000}'));
}

#[test]
fn folding_lowers_ascii_capitals_only() {
    let mut code: u32 = 0;
    while code <= 0x10FFFF {
        if let Some(c) = char::from_u32(code) {
            assert_eq!(fold_ascii_case(c), c.to_ascii_lowercase() as u32, "U+{:04X}", code);
        }
        code += 1;
    }
}

#[test]
fn folding_samples() {
    assert_eq!(fold_ascii_case('A'), 'a' as u32);
    assert_eq!(fold_ascii_case('Z'), 'z' as u32);
    assert_eq!(fold_ascii_case('a'), 'a' as u32);
    assert_eq!(fold_ascii_case('@'), '@' as u32);
    assert_eq!(fold_ascii_case('['), '[' as u32);
    assert_eq!(fold_ascii_case('É'), 'É' as u32);
}

fn trim_cases() -> Vec<&'static str> {
    vec![
        "",
        " ",
        "  ",
        "\t\n\r ",
        "Kiwi",
        " Kiwi",
        "Kiwi ",
        "  Kiwi  ",
        "\tDragon Fruit\n",
        " a b  c ",
        "\u{00A0}Mango\u{3000}",
        "\u{2003}\u{2028}x\u{2029}\u{205F}",
        "\u{200B}x\u{200B}",
        " é ",
        "  日本 語  ",
        "x",
        " x",
        "x ",
        "\u{0085}\u{1680}",
    ]
}

#[test]
fn trim_is_what_the_standard_library_does() {
    for text in trim_cases() {
        assert_eq!(trim(text), text.trim(), "{:?}", text);
    }
}

#[test]
fn trim_removes_whitespace_on_both_sides() {
    assert_eq!(trim("  Kiwi  "), "Kiwi");
    assert_eq!(trim("\tDragon Fruit\n"), "Dragon Fruit");
    assert_eq!(trim("Kiwi"), "Kiwi");
}

#[test]
fn trim_of_whitespace_is_empty() {
    assert_eq!(trim(""), "");
    assert_eq!(trim("  "), "");
    assert_eq!(trim(" \t\r\n\u{00A0}"), "");
}

#[test]
fn trim_keeps_inner_whitespace() {
    assert_eq!(trim(" a b  c "), "a b  c");
}

#[test]
fn trim_twice_is_trim_once() {
    for text in trim_cases() {
        assert_eq!(trim(trim(text)), trim(text), "{:?}", text);
    }
}

#[test]
fn names_match_ignores_ascii_case() {
    assert!(names_match("Apple", "apple"));
    assert!(names_match("APPLE", "apple"));
    assert!(names_match("aPpLe", "ApPlE"));
    assert!(names_match("", ""));
    assert!(names_match("Dragon Fruit", "dragon fruit"));
}

#[test]
fn names_match_tells_names_apart() {
    assert!(!names_match("Apple", "Apples"));
    assert!(!names_match("Apples", "Apple"));
    assert!(!names_match("Apple", ""));
    assert!(!names_match("", "Apple"));
    assert!(!names_match("Pear", "Peat"));
    assert!(!names_match("Apple", " Apple"));
    assert!(!names_match("A", "a "));
}

#[test]
fn names_match_folds_no_other_letters() {
    assert!(!names_match("É", "é"));
    assert!(names_match("é", "é"));
    assert!(names_match("CAFé", "café"));
    assert!(!names_match("K", "\u{212A}"));
    assert!(!names_match("@", "`"));
    assert!(!names_match("[", "{"));
}

#[test]
fn names_match_is_what_the_standard_library_says() {
    let words = [
        "", "a", "A", "b", "Apple", "apple", "APPLE", "Apples", "É", "é", "CAFé", "café", "K",
        "\u{212A}", "@", "`", "[", "{", " ", "a ", " a", "日本", "日本語", "ſ", "S", "s",
    ];
    for left in words {
        for right in words {
            assert_eq!(
                names_match(left, right),
                left.eq_ignore_ascii_case(right),
                "{:?} {:?}",
                left,
                right
            );
        }
    }
}
