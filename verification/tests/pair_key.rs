use emoji_mashup::pair_key::{normalize, token_at_most};
use emoji_mashup::text::{chars_of, is_white_space, same_text, trim_bounds};

#[test]
fn normalize_puts_the_smaller_token_first() {
    assert_eq!(normalize("a", "b"), ("a".to_string(), "b".to_string()));
    assert_eq!(normalize("b", "a"), ("a".to_string(), "b".to_string()));
}

#[test]
fn normalize_is_symmetric_on_emoji() {
    let one = normalize("😀", "😂");
    let other = normalize("😂", "😀");
    assert_eq!(one, other);
    assert_eq!(one, ("😀".to_string(), "😂".to_string()));
}

#[test]
fn normalize_keeps_equal_tokens() {
    assert_eq!(normalize("🙂", "🙂"), ("🙂".to_string(), "🙂".to_string()));
}

#[test]
fn normalize_orders_a_prefix_first() {
    assert_eq!(normalize("ab", "a"), ("a".to_string(), "ab".to_string()));
    assert_eq!(normalize("", "a"), ("".to_string(), "a".to_string()));
}

#[test]
fn token_order_is_the_order_of_str() {
    let tokens = ["", "a", "ab", "b", "é", "😀", "😂", "🙂", "👩‍👩‍👧", "z", "\u{7f}", "\u{80}"];
    for a in tokens {
        for b in tokens {
            assert_eq!(token_at_most(a, b), a <= b, "{:?} {:?}", a, b);
        }
    }
}

#[test]
fn same_text_tells_equal_texts() {
    assert!(same_text("", ""));
    assert!(same_text("😀", "😀"));
    assert!(!same_text("😀", "😂"));
    assert!(!same_text("a", "ab"));
    assert!(!same_text("ab", "a"));
    assert!(!same_text("data", "date"));
}

#[test]
fn white_space_is_that_of_char() {
    let mut code: u32 = 0;
    while code <= 0x10FFFF {
        if let Some(c) = char::from_u32(code) {
            assert_eq!(is_white_space(c), c.is_whitespace(), "U+{:04X}", code);
        }
        code += 1;
    }
}

#[test]
fn chars_of_lists_the_characters() {
    assert_eq!(chars_of(""), Vec::<char>::new());
    assert_eq!(chars_of("a😀_"), vec!['a', '😀', '_']);
}

#[test]
fn trim_bounds_leave_out_white_space() {
    let chars = chars_of("  a b \t_\u{3000}😀\n");
    assert_eq!(trim_bounds(&chars, 0, 7), (2, 5));
    assert_eq!(trim_bounds(&chars, 8, 11), (9, 10));
    assert_eq!(trim_bounds(&chars, 0, 2), (2, 2));
    assert_eq!(trim_bounds(&chars, 3, 3), (3, 3));
}

#[test]
fn trim_bounds_agree_with_trim() {
    let texts = ["", " ", "a", " a", "a ", "  a  b  ", "\u{a0}x\u{2003}", "\t\n\r", "😀 "];
    for text in texts {
        let chars = chars_of(text);
        let (from, to) = trim_bounds(&chars, 0, chars.len());
        let got: String = chars[from..to].iter().collect();
        assert_eq!(got, text.trim(), "{:?}", text);
    }
}
