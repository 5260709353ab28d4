//! Payload truncation on character boundaries.

use vstd::prelude::*;

verus! {

/// Byte length of the UTF-8 encoding of `text`.
pub open spec fn byte_len(text: Seq<char>) -> nat {
    vstd::utf8::encode_utf8(text).len()
}

/// The longest prefix of `text` whose UTF-8 encoding has at most `max_bytes`
/// bytes.
pub open spec fn truncated(text: Seq<char>, max_bytes: nat) -> Seq<char>
    decreases text.len(),
{
    if byte_len(text) <= max_bytes || text.len() == 0 {
        text
    } else {
        truncated(text.drop_last(), max_bytes)
    }
}

/// Truncation keeps a prefix, within the limit, that no longer prefix within
/// the limit extends.
pub proof fn lemma_truncation_is_longest_prefix(text: Seq<char>, max_bytes: nat)
    ensures
        ({
            let out = truncated(text, max_bytes);
            &&& out.len() <= text.len()
            &&& out == text.take(out.len() as int)
            &&& byte_len(out) <= max_bytes
            &&& forall|n: int|
                out.len() < n <= text.len() ==> byte_len(#[trigger] text.take(n)) > max_bytes
        }),
    decreases text.len(),
{
    if byte_len(text) <= max_bytes {
        assert(text.take(text.len() as int) =~= text);
    } else {
        assert(text.len() > 0);
        let shorter = text.drop_last();
        lemma_truncation_is_longest_prefix(shorter, max_bytes);
        let out = truncated(text, max_bytes);
        assert(text.take(out.len() as int) =~= shorter.take(out.len() as int));
        assert forall|n: int| out.len() < n <= text.len() implies byte_len(
            #[trigger] text.take(n),
        ) > max_bytes by {
            if n == text.len() {
                assert(text.take(n) =~= text);
            } else {
                assert(text.take(n) =~= shorter.take(n));
            }
        }
    }
}

/// Truncating twice with the same limit changes nothing the second time, and
/// a text within the limit is left as it is.
pub proof fn lemma_truncation_is_idempotent(text: Seq<char>, max_bytes: nat)
    ensures
        truncated(truncated(text, max_bytes), max_bytes) == truncated(text, max_bytes),
        byte_len(text) <= max_bytes ==> truncated(text, max_bytes) == text,
{
    lemma_truncation_is_longest_prefix(text, max_bytes);
}

/// A wider limit keeps at least what a narrower one keeps.
pub proof fn lemma_truncation_is_monotone(text: Seq<char>, narrow: nat, wide: nat)
    requires
        narrow <= wide,
    ensures
        truncated(text, narrow).len() <= truncated(text, wide).len(),
        truncated(text, narrow) == truncated(truncated(text, wide), narrow),
    decreases text.len(),
{
    if byte_len(text) <= wide || text.len() == 0 {
        lemma_truncation_is_longest_prefix(text, narrow);
    } else {
        lemma_truncation_is_monotone(text.drop_last(), narrow, wide);
    }
}

proof fn lemma_prefix_boundary(text: Seq<char>, n: int)
    requires
        0 <= n <= text.len(),
    ensures
        vstd::utf8::is_char_boundary(
            vstd::utf8::encode_utf8(text),
            byte_len(text.take(n)) as int,
        ),
        byte_len(text.take(n)) <= byte_len(text),
    decreases text.len(),
{
    let bytes = vstd::utf8::encode_utf8(text);
    vstd::utf8::encode_utf8_valid_utf8(text);
    if n == 0 {
        assert(text.take(0) =~= seq![]);
    } else {
        let rest = text.drop_first();
        lemma_prefix_boundary(rest, n - 1);
        vstd::utf8::encode_utf8_first_scalar(text);
        vstd::utf8::encode_utf8_valid_utf8(rest);
        assert(vstd::utf8::pop_first_scalar(bytes) =~= vstd::utf8::encode_utf8(rest));
        assert(text.take(n).drop_first() =~= rest.take(n - 1));
    }
}

proof fn lemma_prefix_is_shorter(text: Seq<char>, n: int)
    requires
        0 <= n < text.len(),
    ensures
        byte_len(text.take(n)) < byte_len(text.take(n + 1)),
    decreases text.len(),
{
    let rest = text.drop_first();
    assert(text.take(n + 1).drop_first() =~= rest.take(n));
    if n == 0 {
        assert(text.take(0) =~= seq![]);
    } else {
        assert(text.take(n).drop_first() =~= rest.take(n - 1));
        lemma_prefix_is_shorter(rest, n - 1);
    }
}

proof fn lemma_prefix_is_truncation(text: Seq<char>, n: int, max_bytes: nat)
    requires
        0 <= n <= text.len(),
        byte_len(text.take(n)) <= max_bytes,
        n < text.len() ==> byte_len(text.take(n + 1)) > max_bytes,
    ensures
        truncated(text, max_bytes) == text.take(n),
{
    lemma_truncation_is_longest_prefix(text, max_bytes);
    let out = truncated(text, max_bytes);
    if out.len() < n {
        assert(byte_len(text.take(n)) > max_bytes);
    }
    if n < out.len() {
        lemma_prefix_boundary(text.take(out.len() as int), n + 1);
        assert(text.take(out.len() as int).take(n + 1) =~= text.take(n + 1));
    }
}

/// Truncate a UTF-8 string to at most `max_bytes`, returning the (possibly
/// truncated) string and a flag indicating whether truncation occurred.
///
/// Truncation always happens on a `char` boundary to keep the result valid
/// UTF-8.
pub fn truncate_utf8(input: &str, max_bytes: usize) -> (out: (String, bool))
    ensures
        out.0@ == truncated(input@, max_bytes as nat),
        out.1 == (byte_len(input@) > max_bytes),
{
    let bytes = input.as_bytes();
    if bytes.len() <= max_bytes {
        return (input.to_owned(), false);
    }
    proof {
        vstd::utf8::encode_utf8_valid_utf8(input@);
        vstd::utf8::is_char_boundary_start_end_of_seq(bytes@);
    }
    let mut end: usize = max_bytes;
    while end > 0 && !input.is_char_boundary(end)
        invariant
            bytes@ == vstd::utf8::encode_utf8(input@),
            vstd::utf8::is_char_boundary(bytes@, 0),
            end <= max_bytes,
            forall|k: int|
                end < k <= max_bytes ==> !#[trigger] vstd::utf8::is_char_boundary(bytes@, k),
        decreases end,
    {
        end -= 1;
    }
    let (kept, dropped) = input.split_at(end);
    proof {
        let whole = input@;
        let n = kept@.len() as int;
        vstd::utf8::decode_utf8_split(bytes@, end as int);
        vstd::utf8::encode_utf8_decode_utf8(whole);
        vstd::utf8::encode_utf8_decode_utf8(kept@);
        vstd::utf8::encode_utf8_decode_utf8(dropped@);
        assert(whole =~= kept@ + dropped@);
        assert(kept@ =~= whole.take(n));
        if n < whole.len() {
            lemma_prefix_boundary(whole, n + 1);
            lemma_prefix_is_shorter(whole, n);
        }
        lemma_prefix_is_truncation(whole, n, max_bytes as nat);
    }
    (kept.to_owned(), true)
}

} // verus!
