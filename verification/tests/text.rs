use pokebot_agent::keyboard::validate_name;
use pokebot_agent::text::{
    after_last_space, comes_before, contains, decimal, ends_with, find, join, signed, starts_with,
    swap, trim, trim_end_matches, trim_start_matches,
};

#[test]
fn numbers_in_words() {
    assert_eq!(decimal(0), "0");
    assert_eq!(decimal(u64::MAX), u64::MAX.to_string());
    assert_eq!(signed(-42), "-42");
    assert_eq!(signed(7), "7");
}

/// The same as the text functions of the standard library give.
#[test]
fn texts_are_searched_and_cut() {
    for s in ["", " ", "POKé BALL", "  a b  ", "BALL BALL", "¥1,600.", "MOVE_MOVE_X", "..a.."] {
        for t in ["", " ", "BALL", "a", "MOVE_", ".", "é"] {
            assert_eq!(contains(s, t), s.contains(t), "{s:?} {t:?}");
            assert_eq!(starts_with(s, t), s.starts_with(t), "{s:?} {t:?}");
            assert_eq!(ends_with(s, t), s.ends_with(t), "{s:?} {t:?}");
            let at = s.find(t).map(|i| s[..i].chars().count());
            assert_eq!(find(s, t), at, "{s:?} {t:?}");
            if !t.is_empty() {
                assert_eq!(trim_start_matches(s, t), s.trim_start_matches(t), "{s:?} {t:?}");
                assert_eq!(trim_end_matches(s, t), s.trim_end_matches(t), "{s:?} {t:?}");
            }
            assert_eq!(comes_before(s, t), s < t, "{s:?} {t:?}");
        }
        assert_eq!(trim(s), s.trim());
        assert_eq!(swap(s, ' ', "_"), s.replace(' ', "_"));
        assert_eq!(after_last_space(s), s.rsplit(' ').next().unwrap());
    }
    assert_eq!(join(&vec!["a".into(), "b".into()], ", "), "a, b");
}

/// What is refused is printed as the standard library prints it.
#[test]
fn refused_names_are_quoted() {
    let told = validate_name("A\"b").unwrap_err();
    assert!(told.contains("'\"'") || told.contains("\"A\\\"b\""), "{told}");
}
