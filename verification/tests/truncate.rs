use rig_tap::{truncate_utf8, PAYLOAD_TRUNCATE_BYTES};

#[test]
fn truncate_at_char_boundary() {
    let s = "café-α-β-γ-δ-ε-ζ-η-θ-ι-κ-λ-μ-ν-ξ-ο-π";
    let (out, truncated) = truncate_utf8(s, 6);
    assert!(truncated);
    // Must remain valid UTF-8 — round-tripping through String guarantees this.
    assert!(out.is_char_boundary(out.len()));
    assert!(out.len() <= 6);
}

#[test]
fn truncate_no_op_when_short() {
    let (out, truncated) = truncate_utf8("ok", 100);
    assert!(!truncated);
    assert_eq!(out, "ok");
}

#[test]
fn truncate_boundary_drops_partial_multibyte_codepoint() {
    let input = format!("{}é", "a".repeat(PAYLOAD_TRUNCATE_BYTES - 1));
    let (out, truncated) = truncate_utf8(&input, PAYLOAD_TRUNCATE_BYTES);
    assert!(truncated);
    assert_eq!(out.len(), PAYLOAD_TRUNCATE_BYTES - 1);
    assert!(out.ends_with('a'));
    assert!(out.is_char_boundary(out.len()));
}

#[test]
fn truncate_keeps_the_longest_prefix() {
    // "é" takes two bytes, "€" three, "😀" four.
    let s = "é€😀";
    let cases = [(0, ""), (1, ""), (2, "é"), (4, "é"), (5, "é€"), (8, "é€"), (9, s), (100, s)];
    for (max, kept) in cases {
        let (out, truncated) = truncate_utf8(s, max);
        assert_eq!(out, kept, "limit {max}");
        assert_eq!(truncated, max < 9, "limit {max}");
        // A second truncation changes nothing.
        assert_eq!(truncate_utf8(&out, max), (out.clone(), false));
    }
}

#[test]
fn truncate_of_nothing_is_nothing() {
    assert_eq!(truncate_utf8("", 0), (String::new(), false));
}
