use meetily::text::{is_control_char, is_white_space_char, trim};

#[test]
fn white_space_matches_std_for_every_char() {
    for c in (0u32..=0x10ffff).filter_map(char::from_u32) {
        assert_eq!(is_white_space_char(c), c.is_whitespace(), "{:?}", c);
    }
}

#[test]
fn control_matches_std_for_every_char() {
    for c in (0u32..=0x10ffff).filter_map(char::from_u32) {
        assert_eq!(is_control_char(c), c.is_control(), "{:?}", c);
    }
}

#[test]
fn trim_matches_std() {
    for s in ["", "  a b  ", "\u{3000}x\u{85}", "\t\n", "no-trim", " \u{a0}.\u{a0} "] {
        let t: String = trim(s).into_iter().collect();
        assert_eq!(t, s.trim());
    }
}
