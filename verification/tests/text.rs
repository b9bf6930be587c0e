use clitrix::text::{char_is_whitespace, str_trim};

#[test]
fn test_whitespace_matches_std() {
    for u in 0u32..=0x10FFFF {
        if let Some(c) = char::from_u32(u) {
            assert_eq!(char_is_whitespace(c), c.is_whitespace(), "U+{:04X}", u);
        }
    }
}

#[test]
fn test_trim_matches_std() {
    for s in ["", "   ", " a ", "\u{3000}héllo wörld\u{2029}\n", "x", "\t\u{85}mid dle\u{A0}", "no-space"] {
        assert_eq!(str_trim(s), s.trim());
    }
}
