use css_parser::text::{chars_of, is_whitespace, spells};

#[test]
fn white_space_is_what_the_standard_library_counts() {
    let mut c = 0u32;
    while c <= 0x10ffff {
        if let Some(ch) = char::from_u32(c) {
            assert_eq!(is_whitespace(ch), ch.is_whitespace(), "U+{:04X}", c);
        }
        c += 1;
    }
}

#[test]
fn chars_of_gives_the_characters_in_order() {
    assert_eq!(chars_of(""), Vec::<char>::new());
    assert_eq!(chars_of("a\u{e9}\u{4e2d}"), vec!['a', '\u{e9}', '\u{4e2d}']);
}

#[test]
fn spells_compares_whole_words() {
    assert!(spells(&vec!['r', 'e', 'd'], "red"));
    assert!(!spells(&vec!['r', 'e', 'd'], "re"));
    assert!(!spells(&vec!['r', 'e'], "red"));
    assert!(!spells(&vec!['r', 'e', 'x'], "red"));
    assert!(spells(&vec![], ""));
    assert!(!spells(&vec![], "a"));
}
