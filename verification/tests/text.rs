use rig_tap::text::{copy_option, copy_texts, decimal_text, own_option, same_text, text_before};

#[test]
fn texts_compare_as_strings_do() {
    let texts = ["", "a", "ab", "abc", "b", "B", "é", "z", "\u{FFFF}", "😀", "a\0"];
    for a in texts {
        for b in texts {
            assert_eq!(same_text(a, b), a == b, "{a:?} {b:?}");
            assert_eq!(text_before(a, b), a < b, "{a:?} {b:?}");
        }
    }
}

#[test]
fn decimals_render_as_integers_do() {
    for n in [0, 1, 9, 10, 99, 100, 1234567890, u64::MAX] {
        assert_eq!(decimal_text(n), n.to_string());
    }
}

#[test]
fn copies_are_equal() {
    assert_eq!(copy_option(&Some("x".into())), Some("x".into()));
    assert_eq!(copy_option(&None), None);
    assert_eq!(own_option(Some("x")), Some("x".into()));
    assert_eq!(own_option(None), None);
    assert_eq!(copy_texts(&vec!["a".into(), "".into()]), vec!["a", ""]);
}
