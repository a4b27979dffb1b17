use vstd::prelude::*;
use vstd::utf8::*;
use crate::canonical::{framed, push_framed};
use sha2::Digest;

verus! {

/// SHA-256 of a byte sequence, as computed by the `sha2` crate.
pub uninterp spec fn spec_sha256(data: Seq<u8>) -> Seq<u8>;

/// Calls `sha2::Sha256::digest`: the result is the SHA-256 of `data`, which
/// the crate documents as a 32-byte output.
#[verifier::external_body]
fn sha256(data: &[u8]) -> (r: Vec<u8>)
    ensures
        r@ == spec_sha256(data@),
        r@.len() == 32,
{
    sha2::Sha256::digest(data).to_vec()
}

/// Calls `String::from_utf8`: it succeeds exactly on valid UTF-8, and the
/// string then has these bytes.
#[verifier::external_body]
pub(crate) fn string_from_utf8(bytes: Vec<u8>) -> (r: Option<String>)
    ensures
        r is Some <==> valid_utf8(bytes@),
        r matches Some(s) ==> encode_utf8(s@) == bytes@,
{
    match String::from_utf8(bytes) {
        Ok(s) => Some(s),
        Err(_) => None,
    }
}

/// Lowercase hexadecimal digit of a value below 16.
pub open spec fn hex_digit(n: u8) -> u8 {
    if n < 10 {
        (48 + n) as u8
    } else {
        (87 + n) as u8
    }
}

/// Lowercase hexadecimal text of a byte sequence, two digits per byte.
pub open spec fn hex_lower(bytes: Seq<u8>) -> Seq<u8>
    decreases bytes.len(),
{
    if bytes.len() == 0 {
        Seq::empty()
    } else {
        hex_lower(bytes.drop_last()) + seq![
            hex_digit(bytes.last() / 16),
            hex_digit(bytes.last() % 16),
        ]
    }
}

/// Whether a byte is a lowercase hexadecimal digit.
pub open spec fn is_hex_lower(b: u8) -> bool {
    (48 <= b <= 57) || (97 <= b <= 102)
}

/// The `sha256:` prefix of digest texts.
pub open spec fn digest_prefix() -> Seq<u8> {
    seq![115u8, 104u8, 97u8, 50u8, 53u8, 54u8, 58u8]
}

/// Text of a digest of `data`: `sha256:` and 64 lowercase hexadecimal digits.
pub open spec fn digest_text(data: Seq<u8>) -> Seq<u8> {
    digest_prefix() + hex_lower(spec_sha256(data))
}

/// Whether a text is well-formed digest text.
pub open spec fn valid_digest_text(bytes: Seq<u8>) -> bool {
    &&& bytes.len() == 71
    &&& bytes.take(7) == digest_prefix()
    &&& forall|i: int| 7 <= i < 71 ==> is_hex_lower(#[trigger] bytes[i])
}

proof fn lemma_hex_lower_len(bytes: Seq<u8>)
    ensures
        hex_lower(bytes).len() == 2 * bytes.len(),
    decreases bytes.len(),
{
    if bytes.len() > 0 {
        lemma_hex_lower_len(bytes.drop_last());
    }
}

proof fn lemma_hex_lower_digits(bytes: Seq<u8>)
    ensures
        forall|i: int| 0 <= i < hex_lower(bytes).len() ==> is_hex_lower(#[trigger] hex_lower(bytes)[i]),
    decreases bytes.len(),
{
    if bytes.len() > 0 {
        lemma_hex_lower_digits(bytes.drop_last());
        lemma_hex_lower_len(bytes.drop_last());
        let b = bytes.last();
        assert(b / 16 < 16);
        assert(b % 16 < 16);
    }
}

/// The text of any digest is well-formed digest text.
pub proof fn lemma_digest_text_valid(data: Seq<u8>)
    requires
        spec_sha256(data).len() == 32,
    ensures
        valid_digest_text(digest_text(data)),
{
    lemma_hex_lower_len(spec_sha256(data));
    lemma_hex_lower_digits(spec_sha256(data));
    let t = digest_text(data);
    assert(t.take(7) =~= digest_prefix());
    assert forall|i: int| 7 <= i < 71 implies is_hex_lower(#[trigger] t[i]) by {
        assert(t[i] == hex_lower(spec_sha256(data))[i - 7]);
    }
}

pub(crate) fn hex_digit_exec(n: u8) -> (r: u8)
    requires
        n < 16,
    ensures
        r == hex_digit(n),
{
    if n < 10 {
        48 + n
    } else {
        87 + n
    }
}

/// Appends the lowercase hexadecimal text of `bytes`.
fn push_hex_lower(target: &mut Vec<u8>, bytes: &[u8])
    ensures
        final(target)@ == old(target)@ + hex_lower(bytes@),
{
    let ghost start = target@;
    let mut i: usize = 0;
    while i < bytes.len()
        invariant
            i <= bytes.len(),
            target@ == start + hex_lower(bytes@.take(i as int)),
        decreases bytes.len() - i,
    {
        let b = bytes[i];
        target.push(hex_digit_exec(b / 16));
        target.push(hex_digit_exec(b % 16));
        proof {
            let next = bytes@.take(i + 1);
            assert(next.drop_last() =~= bytes@.take(i as int));
            assert(next.last() == b);
            assert(target@ =~= start + hex_lower(next));
        }
        i += 1;
    }
    assert(bytes@.take(bytes.len() as int) =~= bytes@);
}

/// Digest text of a SHA-256 value: `sha256:` and the value in lowercase
/// hexadecimal.
pub fn digest_text_of_hash(hash: &[u8]) -> (r: Vec<u8>)
    ensures
        r@ == digest_prefix() + hex_lower(hash@),
{
    let mut out: Vec<u8> = Vec::new();
    out.push(115);
    out.push(104);
    out.push(97);
    out.push(50);
    out.push(53);
    out.push(54);
    out.push(58);
    assert(out@ =~= digest_prefix());
    push_hex_lower(&mut out, hash);
    out
}

/// Digest text of `data` as bytes.
pub fn digest_text_bytes(data: &[u8]) -> (r: Vec<u8>)
    ensures
        r@ == digest_text(data@),
        valid_digest_text(r@),
{
    let hash = sha256(data);
    proof {
        lemma_digest_text_valid(data@);
    }
    digest_text_of_hash(hash.as_slice())
}

/// ASCII bytes are valid UTF-8.
proof fn lemma_ascii_valid_utf8(bytes: Seq<u8>)
    requires
        forall|i: int| 0 <= i < bytes.len() ==> #[trigger] bytes[i] < 128,
    ensures
        valid_utf8(bytes),
    decreases bytes.len(),
{
    if bytes.len() > 0 {
        let rest = bytes.subrange(1, bytes.len() as int);
        assert(is_leading_byte_width_1(bytes[0]));
        assert(pop_first_scalar(bytes) =~= rest);
        lemma_ascii_valid_utf8(rest);
    }
}

/// A string of ASCII bytes.
pub fn ascii_string(bytes: Vec<u8>) -> (r: String)
    requires
        forall|i: int| 0 <= i < bytes@.len() ==> #[trigger] bytes@[i] < 128,
    ensures
        encode_utf8(r@) == bytes@,
{
    proof {
        lemma_ascii_valid_utf8(bytes@);
    }
    match string_from_utf8(bytes) {
        Some(s) => s,
        None => {
            proof {
                assert(false);
            }
            String::new()
        },
    }
}

/// Text of a well-formed digest as a string.
pub(crate) fn digest_string(bytes: Vec<u8>) -> (r: String)
    requires
        valid_digest_text(bytes@),
    ensures
        encode_utf8(r@) == bytes@,
{
    proof {
        assert forall|i: int| 0 <= i < bytes@.len() implies #[trigger] bytes@[i] < 128 by {
            if i < 7 {
                assert(bytes@[i] == bytes@.take(7)[i]);
            }
        }
    }
    ascii_string(bytes)
}

/// Checks the digest text format.
pub fn is_valid_digest_text(bytes: &[u8]) -> (r: bool)
    ensures
        r == valid_digest_text(bytes@),
{
    if bytes.len() != 71 {
        return false;
    }
    if !(bytes[0] == 115 && bytes[1] == 104 && bytes[2] == 97 && bytes[3] == 50 && bytes[4] == 53
        && bytes[5] == 54 && bytes[6] == 58) {
        proof {
            if bytes@.take(7) == digest_prefix() {
                assert(bytes@[0] == bytes@.take(7)[0]);
                assert(bytes@[1] == bytes@.take(7)[1]);
                assert(bytes@[2] == bytes@.take(7)[2]);
                assert(bytes@[3] == bytes@.take(7)[3]);
                assert(bytes@[4] == bytes@.take(7)[4]);
                assert(bytes@[5] == bytes@.take(7)[5]);
                assert(bytes@[6] == bytes@.take(7)[6]);
            }
        }
        return false;
    }
    assert(bytes@.take(7) =~= digest_prefix());
    let mut i: usize = 7;
    while i < 71
        invariant
            7 <= i <= 71,
            bytes@.len() == 71,
            forall|j: int| 7 <= j < i ==> is_hex_lower(#[trigger] bytes@[j]),
        decreases 71 - i,
    {
        let b = bytes[i];
        if !((48 <= b && b <= 57) || (97 <= b && b <= 102)) {
            return false;
        }
        i += 1;
    }
    true
}

/// A content digest: `sha256:` followed by 64 lowercase hexadecimal digits.
#[derive(Clone, Debug, PartialEq, Eq, PartialOrd, Ord, Hash)]
pub struct ContentDigest {
    text: String,
}

impl View for ContentDigest {
    type V = Seq<char>;

    closed spec fn view(&self) -> Seq<char> {
        self.text@
    }
}

impl ContentDigest {
    /// Digest of a byte sequence.
    pub fn from_bytes(data: &[u8]) -> (r: Self)
        ensures
            encode_utf8(r@) == digest_text(data@),
    {
        let bytes = digest_text_bytes(data);
        ContentDigest { text: digest_string(bytes) }
    }

    /// Parses stored digest text.
    pub fn parse(text: &str) -> (r: Option<Self>)
        ensures
            r is Some <==> valid_digest_text(encode_utf8(text@)),
            r matches Some(d) ==> d@ == text@,
    {
        if is_valid_digest_text(text.as_bytes()) {
            Some(ContentDigest { text: text.to_owned() })
        } else {
            None
        }
    }

    pub fn as_str(&self) -> (r: &str)
        ensures
            r@ == self@,
    {
        self.text.as_str()
    }

    /// A copy with the same value.
    pub fn duplicate(&self) -> (r: Self)
        ensures
            r@ == self@,
    {
        ContentDigest { text: self.text.clone() }
    }

    /// Whether two digests are equal.
    pub fn same_as(&self, other: &Self) -> (r: bool)
        ensures
            r == (self@ == other@),
    {
        self.text == other.text
    }
}

} // verus!
