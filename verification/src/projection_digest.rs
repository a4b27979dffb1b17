use vstd::prelude::*;
use vstd::utf8::*;
use crate::canonical::{framed, push_framed};
use crate::digest::{digest_text, digest_text_bytes, valid_digest_text, is_valid_digest_text};
use crate::ids::ActiveSearchProjection;

verus! {

/// Lexicographic order of byte strings.
pub open spec fn bytes_less(a: Seq<u8>, b: Seq<u8>) -> bool
    decreases a.len(),
{
    if a.len() == 0 {
        b.len() > 0
    } else if b.len() == 0 {
        false
    } else if a[0] < b[0] {
        true
    } else if a[0] > b[0] {
        false
    } else {
        bytes_less(a.drop_first(), b.drop_first())
    }
}

/// No byte string precedes itself.
pub proof fn lemma_bytes_less_irreflexive(a: Seq<u8>)
    ensures
        !bytes_less(a, a),
    decreases a.len(),
{
    if a.len() > 0 {
        lemma_bytes_less_irreflexive(a.drop_first());
    }
}

/// The byte order is transitive.
pub proof fn lemma_bytes_less_transitive(a: Seq<u8>, b: Seq<u8>, c: Seq<u8>)
    requires
        bytes_less(a, b),
        bytes_less(b, c),
    ensures
        bytes_less(a, c),
    decreases a.len(),
{
    if a.len() > 0 && b.len() > 0 && c.len() > 0 && a[0] == b[0] && b[0] == c[0] {
        lemma_bytes_less_transitive(a.drop_first(), b.drop_first(), c.drop_first());
    }
}

/// Two different byte strings are ordered one way or the other.
pub proof fn lemma_bytes_less_total(a: Seq<u8>, b: Seq<u8>)
    requires
        a != b,
    ensures
        bytes_less(a, b) || bytes_less(b, a),
    decreases a.len(),
{
    if a.len() > 0 && b.len() > 0 && a[0] == b[0] {
        if a.drop_first() == b.drop_first() {
            assert(a =~= seq![a[0]] + a.drop_first());
            assert(b =~= seq![b[0]] + b.drop_first());
        }
        lemma_bytes_less_total(a.drop_first(), b.drop_first());
    } else if a.len() == 0 && b.len() == 0 {
        assert(a =~= b);
    }
}

/// Compares two byte strings lexicographically.
pub fn bytes_less_exec(a: &[u8], b: &[u8]) -> (r: bool)
    ensures
        r == bytes_less(a@, b@),
{
    let mut i: usize = 0;
    assert(a@.skip(0) =~= a@);
    assert(b@.skip(0) =~= b@);
    while i < a.len() && i < b.len()
        invariant
            i <= a.len(),
            i <= b.len(),
            bytes_less(a@, b@) == bytes_less(a@.skip(i as int), b@.skip(i as int)),
        decreases a.len() - i,
    {
        if a[i] < b[i] {
            return true;
        }
        if a[i] > b[i] {
            return false;
        }
        assert(a@.skip(i as int).drop_first() =~= a@.skip(i + 1));
        assert(b@.skip(i as int).drop_first() =~= b@.skip(i + 1));
        i += 1;
    }
    i < b.len()
}

/// UTF-8 bytes of the document and version of a projection.
pub open spec fn projection_key(p: ActiveSearchProjection) -> (Seq<u8>, Seq<u8>) {
    (encode_utf8(p.document_id@), encode_utf8(p.resume_version_id@))
}

/// Whether the document identifiers ascend strictly.
pub open spec fn documents_ascending(projections: Seq<ActiveSearchProjection>) -> bool {
    forall|i: int|
        #![trigger projections[i]]
        0 < i < projections.len() ==> bytes_less(
            projection_key(projections[i - 1]).0,
            projection_key(projections[i]).0,
        )
}

/// Domain tag of projection digests.
pub open spec fn projection_tag() -> Seq<u8> {
    encode_utf8("resume-ir.search-projection.v1"@)
}

/// Canonical encoding of a projection list: the tag, then each document and
/// version as framed parts, in list order.
pub open spec fn projection_encoding(projections: Seq<ActiveSearchProjection>) -> Seq<u8>
    decreases projections.len(),
{
    if projections.len() == 0 {
        framed(projection_tag())
    } else {
        projection_encoding(projections.drop_last()) + framed(
            projection_key(projections.last()).0,
        ) + framed(projection_key(projections.last()).1)
    }
}

proof fn lemma_descent_breaks_order(ps: Seq<ActiveSearchProjection>, k: int)
    requires
        0 < k < ps.len(),
        !bytes_less(projection_key(ps[k - 1]).0, projection_key(ps[k]).0),
    ensures
        !documents_ascending(ps),
{
    assert(ps[k] == ps[k]);
}

proof fn lemma_ascending_prefix_step(ps: Seq<ActiveSearchProjection>, i: int)
    requires
        0 <= i < ps.len(),
        documents_ascending(ps.take(i)),
        i > 0 ==> bytes_less(projection_key(ps[i - 1]).0, projection_key(ps[i]).0),
    ensures
        documents_ascending(ps.take(i + 1)),
        projection_encoding(ps.take(i + 1)) == projection_encoding(ps.take(i)) + framed(
            projection_key(ps[i]).0,
        ) + framed(projection_key(ps[i]).1),
{
    let next = ps.take(i + 1);
    assert(next.drop_last() =~= ps.take(i));
    assert(next.last() == ps[i]);
    assert forall|j: int| #![trigger next[j]] 0 < j < next.len() implies bytes_less(
        projection_key(next[j - 1]).0,
        projection_key(next[j]).0,
    ) by {
        if j < i {
            assert(next[j] == ps.take(i)[j]);
            assert(next[j - 1] == ps.take(i)[j - 1]);
        }
    }
}

/// Digest of the exact projection mapping of a publication: `sha256:` and
/// the hexadecimal SHA-256 of the canonical encoding. The mapping must list
/// its documents in strictly ascending order.
#[derive(Clone, Debug, PartialEq, Eq, Hash)]
pub struct SearchProjectionDigest {
    text: String,
}

impl View for SearchProjectionDigest {
    type V = Seq<char>;

    closed spec fn view(&self) -> Seq<char> {
        self.text@
    }
}

/// Text of the digest of a projection list.
pub open spec fn projection_digest_text(projections: Seq<ActiveSearchProjection>) -> Seq<u8> {
    digest_text(projection_encoding(projections))
}

impl SearchProjectionDigest {
    /// Digest of a projection list; `None` unless its documents ascend
    /// strictly.
    pub fn from_pairs(projections: &[ActiveSearchProjection]) -> (r: Option<Self>)
        ensures
            r is Some <==> documents_ascending(projections@),
            r matches Some(d) ==> encode_utf8(d@) == projection_digest_text(projections@),
    {
        let mut encoding: Vec<u8> = Vec::new();
        push_framed(&mut encoding, "resume-ir.search-projection.v1".as_bytes());
        let mut i: usize = 0;
        while i < projections.len()
            invariant
                i <= projections.len(),
                encoding@ == projection_encoding(projections@.take(i as int)),
                documents_ascending(projections@.take(i as int)),
            decreases projections.len() - i,
        {
            let document = projections[i].document_id.as_str().as_bytes();
            if i > 0 {
                let previous = projections[i - 1].document_id.as_str().as_bytes();
                if !bytes_less_exec(previous, document) {
                    proof {
                        lemma_descent_breaks_order(projections@, i as int);
                    }
                    return None;
                }
            }
            push_framed(&mut encoding, document);
            push_framed(&mut encoding, projections[i].resume_version_id.as_str().as_bytes());
            proof {
                lemma_ascending_prefix_step(projections@, i as int);
            }
            i += 1;
        }
        assert(projections@.take(projections.len() as int) =~= projections@);
        let bytes = digest_text_bytes(encoding.as_slice());
        Some(SearchProjectionDigest { text: crate::digest::digest_string(bytes) })
    }

    /// Parses stored digest text.
    pub fn parse(text: &str) -> (r: Option<Self>)
        ensures
            r is Some <==> valid_digest_text(encode_utf8(text@)),
            r matches Some(d) ==> d@ == text@,
    {
        if is_valid_digest_text(text.as_bytes()) {
            Some(SearchProjectionDigest { text: text.to_owned() })
        } else {
            None
        }
    }

    pub fn as_str(&self) -> (r: &str)
        ensures
            r@ == self@,
    {
        self.text.as_str()
    }

    /// A copy with the same value.
    pub fn duplicate(&self) -> (r: Self)
        ensures
            r@ == self@,
    {
        SearchProjectionDigest { text: self.text.clone() }
    }

    /// Whether two digests are equal.
    pub fn same_as(&self, other: &Self) -> (r: bool)
        ensures
            r == (self@ == other@),
    {
        self.text == other.text
    }
}

/// The text of stored document and version pairs.
pub open spec fn text_pairs_view(pairs: Seq<(String, String)>) -> Seq<(Seq<char>, Seq<char>)> {
    pairs.map_values(|p: (String, String)| (p.0@, p.1@))
}

/// Whether the documents of text pairs ascend strictly by their bytes.
pub open spec fn text_pairs_ascending(pairs: Seq<(Seq<char>, Seq<char>)>) -> bool {
    forall|i: int|
        #![trigger pairs[i]]
        0 < i < pairs.len() ==> bytes_less(encode_utf8(pairs[i - 1].0), encode_utf8(pairs[i].0))
}

/// Canonical encoding of text pairs, as of a projection list.
pub open spec fn text_pairs_encoding(pairs: Seq<(Seq<char>, Seq<char>)>) -> Seq<u8>
    decreases pairs.len(),
{
    if pairs.len() == 0 {
        framed(projection_tag())
    } else {
        text_pairs_encoding(pairs.drop_last()) + framed(encode_utf8(pairs.last().0)) + framed(
            encode_utf8(pairs.last().1),
        )
    }
}

proof fn lemma_text_pairs_step(tp: Seq<(Seq<char>, Seq<char>)>, i: int)
    requires
        0 <= i < tp.len(),
        text_pairs_ascending(tp.take(i)),
        i > 0 ==> bytes_less(encode_utf8(tp[i - 1].0), encode_utf8(tp[i].0)),
    ensures
        text_pairs_ascending(tp.take(i + 1)),
        text_pairs_encoding(tp.take(i + 1)) == text_pairs_encoding(tp.take(i)) + framed(
            encode_utf8(tp[i].0),
        ) + framed(encode_utf8(tp[i].1)),
{
    let next = tp.take(i + 1);
    assert(next.drop_last() =~= tp.take(i));
    assert(next.last() == tp[i]);
    assert forall|j: int| #![trigger next[j]] 0 < j < next.len() implies bytes_less(
        encode_utf8(next[j - 1].0),
        encode_utf8(next[j].0),
    ) by {
        if j < i {
            assert(next[j] == tp.take(i)[j]);
            assert(next[j - 1] == tp.take(i)[j - 1]);
        }
    }
}

impl SearchProjectionDigest {
    /// Digest of stored document and version pairs; `None` unless their
    /// documents ascend strictly.
    pub fn from_text_pairs(pairs: &[(String, String)]) -> (r: Option<Self>)
        ensures
            r is Some <==> text_pairs_ascending(text_pairs_view(pairs@)),
            r matches Some(d) ==> encode_utf8(d@) == digest_text(
                text_pairs_encoding(text_pairs_view(pairs@)),
            ),
    {
        let ghost tp = text_pairs_view(pairs@);
        let mut encoding: Vec<u8> = Vec::new();
        push_framed(&mut encoding, "resume-ir.search-projection.v1".as_bytes());
        let mut i: usize = 0;
        while i < pairs.len()
            invariant
                i <= pairs.len(),
                tp == text_pairs_view(pairs@),
                encoding@ == text_pairs_encoding(tp.take(i as int)),
                text_pairs_ascending(tp.take(i as int)),
            decreases pairs.len() - i,
        {
            let document = pairs[i].0.as_str().as_bytes();
            if i > 0 {
                let previous = pairs[i - 1].0.as_str().as_bytes();
                if !bytes_less_exec(previous, document) {
                    proof {
                        assert(tp[i as int] == tp[i as int]);
                    }
                    return None;
                }
            }
            push_framed(&mut encoding, document);
            push_framed(&mut encoding, pairs[i].1.as_str().as_bytes());
            proof {
                lemma_text_pairs_step(tp, i as int);
            }
            i += 1;
        }
        assert(tp.take(pairs.len() as int) =~= tp);
        let bytes = digest_text_bytes(encoding.as_slice());
        Some(SearchProjectionDigest { text: crate::digest::digest_string(bytes) })
    }
}

/// The stored text pairs of a projection list: each document and version,
/// in list order.
pub open spec fn stores_projection(
    pairs: Seq<(Seq<char>, Seq<char>)>,
    projections: Seq<ActiveSearchProjection>,
) -> bool {
    &&& pairs.len() == projections.len()
    &&& forall|i: int|
        0 <= i < pairs.len() ==> #[trigger] pairs[i] == (
            projections[i].document_id@,
            projections[i].resume_version_id@,
        )
}

/// Reading back the stored pairs of a projection list gives the digest of
/// the list itself: both digests exist together, and then they are equal.
pub proof fn stored_pairs_reproduce_projection_digest(
    pairs: Seq<(Seq<char>, Seq<char>)>,
    projections: Seq<ActiveSearchProjection>,
)
    requires
        stores_projection(pairs, projections),
    ensures
        text_pairs_ascending(pairs) == documents_ascending(projections),
        digest_text(text_pairs_encoding(pairs)) == projection_digest_text(projections),
    decreases projections.len(),
{
    if projections.len() > 0 {
        let n = projections.len() - 1;
        assert(pairs[n] == (projections[n].document_id@, projections[n].resume_version_id@));
        assert(stores_projection(pairs.drop_last(), projections.drop_last())) by {
            assert forall|i: int| 0 <= i < pairs.drop_last().len() implies #[trigger] pairs.drop_last()[i] == (
                projections.drop_last()[i].document_id@,
                projections.drop_last()[i].resume_version_id@,
            ) by {
                assert(pairs[i] == (projections[i].document_id@, projections[i].resume_version_id@));
            }
        }
        stored_pairs_reproduce_projection_digest(pairs.drop_last(), projections.drop_last());
        assert(text_pairs_encoding(pairs) == projection_encoding(projections)) by {
            lemma_same_encoding(pairs, projections);
        }
        if documents_ascending(projections) {
            assert forall|i: int| #![trigger pairs[i]] 0 < i < pairs.len() implies bytes_less(
                encode_utf8(pairs[i - 1].0),
                encode_utf8(pairs[i].0),
            ) by {
                assert(pairs[i] == (projections[i].document_id@, projections[i].resume_version_id@));
                assert(pairs[i - 1] == (
                    projections[i - 1].document_id@,
                    projections[i - 1].resume_version_id@,
                ));
                assert(projections[i] == projections[i]);
            }
        }
        if text_pairs_ascending(pairs) {
            assert forall|i: int| #![trigger projections[i]] 0 < i < projections.len() implies bytes_less(
                projection_key(projections[i - 1]).0,
                projection_key(projections[i]).0,
            ) by {
                assert(pairs[i] == (projections[i].document_id@, projections[i].resume_version_id@));
                assert(pairs[i - 1] == (
                    projections[i - 1].document_id@,
                    projections[i - 1].resume_version_id@,
                ));
                assert(pairs[i] == pairs[i]);
            }
        }
    } else {
        lemma_same_encoding(pairs, projections);
    }
}

proof fn lemma_same_encoding(
    pairs: Seq<(Seq<char>, Seq<char>)>,
    projections: Seq<ActiveSearchProjection>,
)
    requires
        stores_projection(pairs, projections),
    ensures
        text_pairs_encoding(pairs) == projection_encoding(projections),
    decreases projections.len(),
{
    if projections.len() > 0 {
        let n = projections.len() - 1;
        assert(pairs[n] == (projections[n].document_id@, projections[n].resume_version_id@));
        assert(stores_projection(pairs.drop_last(), projections.drop_last())) by {
            assert forall|i: int| 0 <= i < pairs.drop_last().len() implies #[trigger] pairs.drop_last()[i] == (
                projections.drop_last()[i].document_id@,
                projections.drop_last()[i].resume_version_id@,
            ) by {
                assert(pairs[i] == (projections[i].document_id@, projections[i].resume_version_id@));
            }
        }
        lemma_same_encoding(pairs.drop_last(), projections.drop_last());
    }
}

} // verus!
