//! Prefixes of strings, decided on their UTF-8 bytes.

use vstd::prelude::*;
use vstd::string::*;
use vstd::utf8::*;

verus! {

/// Encoding a concatenation gives the concatenation of the encodings.
pub proof fn lemma_encode_concat(a: Seq<char>, b: Seq<char>)
    ensures
        encode_utf8(a + b) == encode_utf8(a) + encode_utf8(b),
    decreases a.len(),
{
    if a.len() > 0 {
        lemma_encode_concat(a.drop_first(), b);
        assert((a + b).drop_first() =~= a.drop_first() + b);
        assert(encode_scalar(a[0] as u32) + (encode_utf8(a.drop_first()) + encode_utf8(b))
            =~= (encode_scalar(a[0] as u32) + encode_utf8(a.drop_first())) + encode_utf8(b));
    }
}

/// Where one valid encoding is followed by another, the place where they meet
/// is a character boundary of the whole.
pub proof fn lemma_boundary_between(head: Seq<u8>, tail: Seq<u8>)
    requires
        valid_utf8(head),
        valid_utf8(tail),
    ensures
        valid_utf8(head + tail),
        is_char_boundary(head + tail, head.len() as int),
{
    let whole = head + tail;
    valid_utf8_concat(head, tail);
    if tail.len() == 0 {
        is_char_boundary_start_end_of_seq(whole);
    } else {
        is_char_boundary_iff_not_is_continuation_byte(whole, head.len() as int);
    }
}

/// Whether two byte slices hold the same bytes.
pub fn same_bytes(a: &[u8], b: &[u8]) -> (same: bool)
    ensures
        same == (a@ == b@),
{
    if a.len() != b.len() {
        return false;
    }
    let mut i: usize = 0;
    while i < a.len()
        invariant
            a@.len() == b@.len(),
            i <= a@.len(),
            a@.subrange(0, i as int) == b@.subrange(0, i as int),
        decreases a.len() - i,
    {
        if a[i] != b[i] {
            return false;
        }
        i += 1;
    }
    assert(a@ =~= a@.subrange(0, i as int));
    assert(b@ =~= b@.subrange(0, i as int));
    true
}

/// What is left of `text` behind `prefix`, where `text` begins with it.
pub fn strip_prefix<'a>(text: &'a str, prefix: &str) -> (rest: Option<&'a str>)
    ensures
        rest is Some <==> prefix@.is_prefix_of(text@),
        rest matches Some(r) ==> text@ == prefix@ + r@,
{
    let wanted = prefix.as_bytes();
    let n = wanted.len();
    proof {
        broadcast use {encode_utf8_valid_utf8, encode_utf8_decode_utf8};
        // A text that begins with the prefix begins with its bytes, and the
        // prefix ends on a character boundary of the text.
        if prefix@.is_prefix_of(text@) {
            let behind = text@.skip(prefix@.len() as int);
            assert(text@ =~= prefix@ + behind);
            lemma_encode_concat(prefix@, behind);
            lemma_boundary_between(encode_utf8(prefix@), encode_utf8(behind));
            assert(text.spec_bytes().subrange(0, n as int) =~= prefix.spec_bytes());
        }
    }
    if text.as_bytes().len() < n || !text.is_char_boundary(n) {
        return None;
    }
    let (head, tail) = text.split_at(n);
    proof {
        broadcast use {encode_utf8_valid_utf8, encode_utf8_decode_utf8};
        // The characters of the text are those of the two halves, and halves
        // with the same bytes hold the same characters.
        decode_utf8_split(text.spec_bytes(), n as int);
        assert(text@ == head@ + tail@);
        assert(head.spec_bytes() == prefix.spec_bytes() ==> head@ == prefix@);
    }
    if same_bytes(head.as_bytes(), wanted) {
        Some(tail)
    } else {
        None
    }
}

} // verus!
