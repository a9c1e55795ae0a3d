//! The character classes and the lowercasing that the library relies on, held
//! against the standard library, and seen through the library's functions.

use cosyn::dcc::continuation::{content_word_count, has_deictic_reference, is_continuation};

fn listed_white_space(c: char) -> bool {
    let u = c as u32;
    (0x9..=0xd).contains(&u)
        || u == 0x20
        || u == 0x85
        || u == 0xa0
        || u == 0x1680
        || (0x2000..=0x200a).contains(&u)
        || u == 0x2028
        || u == 0x2029
        || u == 0x202f
        || u == 0x205f
        || u == 0x3000
}

#[test]
fn white_space_is_the_listed_code_points() {
    for u in 0..=0x10ffffu32 {
        if let Some(c) = char::from_u32(u) {
            assert_eq!(c.is_whitespace(), listed_white_space(c), "U+{u:04X}");
        }
    }
}

#[test]
fn ascii_alphanumerics_are_letters_and_digits() {
    for u in 0..128u8 {
        let c = u as char;
        assert_eq!(c.is_alphanumeric(), c.is_ascii_alphanumeric(), "{u}");
    }
}

#[test]
fn ascii_lowercasing_is_per_character() {
    let all: String = (0..128u8).map(|u| u as char).collect();
    let expected: String = all.chars().map(|c| c.to_ascii_lowercase()).collect();
    assert_eq!(all.to_lowercase(), expected);
    assert_eq!("".to_lowercase(), "");
}

#[test]
fn every_listed_space_separates_words() {
    let spaces = ["\t", "\n", "\u{b}", "\u{c}", "\r", " ", "\u{85}", "\u{a0}", "\u{1680}", "\u{2000}", "\u{200a}", "\u{2028}", "\u{2029}", "\u{202f}", "\u{205f}", "\u{3000}"];
    for sp in spaces {
        assert_eq!(content_word_count(&format!("alpha{sp}beta")), 2, "{sp:?}");
    }
    assert_eq!(content_word_count("alpha\u{200b}beta"), 1);
}

#[test]
fn non_ascii_text_is_lowercased_too() {
    assert!(is_continuation("TELL ME MORE ABOUT ÉTÉ"));
    assert!(has_deictic_reference("ÉTÉ: IT"));
}
