use msggram::text::is_whitespace;

#[test]
fn whitespace_class_matches_char_is_whitespace() {
    for n in 0u32..=0x10ffff {
        if let Some(c) = char::from_u32(n) {
            assert_eq!(is_whitespace(c), c.is_whitespace(), "U+{:04X}", n);
        }
    }
}
