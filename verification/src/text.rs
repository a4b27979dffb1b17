use vstd::prelude::*;
use vstd::utf8::*;

verus! {

/// Compares two byte slices for equality.
pub fn bytes_equal(a: &[u8], b: &[u8]) -> (r: bool)
    ensures
        r == (a@ == b@),
{
    if a.len() != b.len() {
        return false;
    }
    let mut i: usize = 0;
    while i < a.len()
        invariant
            i <= a.len(),
            a.len() == b.len(),
            forall|j: int| 0 <= j < i ==> a@[j] == b@[j],
        decreases a.len() - i,
    {
        if a[i] != b[i] {
            return false;
        }
        i += 1;
    }
    assert(a@ =~= b@);
    true
}

/// Compares two texts for equality.
pub fn text_equal(a: &str, b: &str) -> (r: bool)
    ensures
        r == (a@ == b@),
{
    let r = bytes_equal(a.as_bytes(), b.as_bytes());
    proof {
        encode_utf8_decode_utf8(a@);
        encode_utf8_decode_utf8(b@);
    }
    r
}

/// A text has at least as many bytes as characters.
pub proof fn lemma_chars_at_most_bytes(text: Seq<char>)
    ensures
        text.len() <= encode_utf8(text).len(),
    decreases text.len(),
{
    if text.len() > 0 {
        lemma_chars_at_most_bytes(text.drop_first());
    }
}

/// The number of characters of a text fits in `usize`.
pub fn char_count_fits(text: &str)
    ensures
        text@.len() <= usize::MAX,
{
    proof {
        lemma_chars_at_most_bytes(text@);
    }
    let bytes = text.as_bytes();
    let n = bytes.len();
    assert(n == bytes@.len());
}

} // verus!
