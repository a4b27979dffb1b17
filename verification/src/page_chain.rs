use vstd::prelude::*;
use vstd::utf8::*;
use crate::text_page::{
    boundary_at_most, byte_page_end, longest_valid_prefix, truncated_char, usable_bytes,
    MIN_SEARCH_TEXT_BYTE_PAGE_BYTES, UTF8_MAX_TRAILING_BYTES,
};

verus! {

/// A prefix of valid UTF-8 is valid exactly when it ends at a character
/// boundary.
pub proof fn lemma_prefix_valid_iff_boundary(r: Seq<u8>, j: int)
    requires
        valid_utf8(r),
        0 <= j <= r.len(),
    ensures
        valid_utf8(r.take(j)) <==> is_char_boundary(r, j),
    decreases r.len(),
{
    if j == 0 {
        assert(r.take(0).len() == 0);
    } else {
        let n = length_of_first_scalar(r);
        let p = pop_first_scalar(r);
        let t = r.take(j);
        assert(t[0] == r[0]);
        if valid_utf8(t) {
            assert(valid_first_scalar(t));
            if j >= 2 {
                assert(t[1] == r[1]);
            }
            if j >= 3 {
                assert(t[2] == r[2]);
            }
            if j >= 4 {
                assert(t[3] == r[3]);
            }
            assert(length_of_first_scalar(t) == n);
            assert(pop_first_scalar(t) =~= p.take(j - n));
            lemma_prefix_valid_iff_boundary(p, j - n);
        }
        if is_char_boundary(r, j) {
            assert(j >= n) by {
                if j < n {
                    assert(!is_char_boundary(p, j - n));
                }
            }
            lemma_prefix_valid_iff_boundary(p, j - n);
            assert(valid_utf8(p.take(j - n)));
            assert(t.subrange(0, n) =~= r.subrange(0, n));
            assert(t =~= r.subrange(0, n) + p.take(j - n));
            assert(valid_utf8(r.subrange(0, n))) by {
                let s = r.subrange(0, n);
                assert(s[0] == r[0]);
                if n >= 2 {
                    assert(s[1] == r[1]);
                }
                if n >= 3 {
                    assert(s[2] == r[2]);
                }
                if n >= 4 {
                    assert(s[3] == r[3]);
                }
                assert(valid_first_scalar(s));
                assert(pop_first_scalar(s) =~= Seq::<u8>::empty());
                reveal_with_fuel(valid_utf8, 2);
            }
            valid_utf8_concat(r.subrange(0, n), p.take(j - n));
        }
    }
}

proof fn lemma_first_scalar_encodes(s: Seq<u8>)
    requires
        valid_utf8(s),
        s.len() > 0,
    ensures
        1 <= length_of_first_scalar(s) <= 4,
        length_of_first_scalar(s) <= s.len(),
        valid_utf8(s.take(length_of_first_scalar(s))),
        encode_utf8(seq![decode_first_scalar(s) as char]) == s.take(length_of_first_scalar(s)),
{
    let n = length_of_first_scalar(s);
    let t = s.take(n);
    assert(t[0] == s[0]);
    if n >= 2 {
        assert(t[1] == s[1]);
    }
    if n >= 3 {
        assert(t[2] == s[2]);
    }
    if n >= 4 {
        assert(t[3] == s[3]);
    }
    assert(valid_first_scalar(t));
    assert(pop_first_scalar(t) =~= Seq::<u8>::empty());
    reveal_with_fuel(valid_utf8, 2);
    assert(valid_utf8(t));
    reveal_with_fuel(decode_utf8, 2);
    assert(decode_utf8(t) =~= seq![decode_first_scalar(s) as char]);
    decode_utf8_encode_utf8(t);
}

/// The last boundary at or before `m` is a boundary, and none follows it up
/// to `m`.
pub proof fn lemma_boundary_at_most(b: Seq<u8>, m: int)
    requires
        valid_utf8(b),
        0 <= m <= b.len(),
    ensures
        0 <= boundary_at_most(b, m) <= m,
        is_char_boundary(b, boundary_at_most(b, m)),
        forall|j: int| boundary_at_most(b, m) < j <= m ==> !#[trigger] is_char_boundary(b, j),
    decreases m,
{
    if m > 0 && !is_char_boundary(b, m) {
        lemma_boundary_at_most(b, m - 1);
    }
}

/// The boundaries of a valid prefix are those of the whole up to its end.
pub proof fn lemma_prefix_boundaries(r: Seq<u8>, u: int, j: int)
    requires
        valid_utf8(r),
        0 <= j <= u <= r.len(),
        valid_utf8(r.take(u)),
    ensures
        is_char_boundary(r.take(u), j) <==> is_char_boundary(r, j),
{
    lemma_prefix_valid_iff_boundary(r.take(u), j);
    lemma_prefix_valid_iff_boundary(r, j);
    assert(r.take(u).take(j) =~= r.take(j));
}

/// A boundary of the rest of a text after one of its boundaries is a
/// boundary of the text, shifted by where the rest starts.
pub proof fn lemma_suffix_boundary(c: Seq<u8>, o: int, e: int)
    requires
        valid_utf8(c),
        0 <= o <= c.len(),
        is_char_boundary(c, o),
        0 <= e <= c.len() - o,
        is_char_boundary(c.subrange(o, c.len() as int), e),
    ensures
        is_char_boundary(c, o + e),
{
    let r = c.subrange(o, c.len() as int);
    valid_utf8_split(c, o);
    lemma_prefix_valid_iff_boundary(c, o);
    lemma_prefix_valid_iff_boundary(r, e);
    valid_utf8_concat(c.take(o), r.take(e));
    assert(c.take(o) + r.take(e) =~= c.take(o + e));
    lemma_prefix_valid_iff_boundary(c, o + e);
}

/// The usable bytes of a read prefix of valid UTF-8 that holds at least one
/// character end at the last character boundary within it.
pub proof fn lemma_usable_prefix(r: Seq<u8>, m: int)
    requires
        valid_utf8(r),
        0 < m <= r.len(),
        length_of_first_scalar(r) <= m,
    ensures
        usable_bytes(r.take(m)) == Some(boundary_at_most(r, m)),
        boundary_at_most(r, m) > 0,
{
    let b = r.take(m);
    let k = boundary_at_most(r, m);
    let n = length_of_first_scalar(r);
    lemma_boundary_at_most(r, m);
    assert(is_char_boundary(r, n)) by {
        assert(is_char_boundary(pop_first_scalar(r), 0));
    }
    assert(k >= n) by {
        if k < n {
            assert(!is_char_boundary(r, n));
        }
    }
    lemma_prefix_valid_iff_boundary(r, m);
    assert(b.len() == m);
    if is_char_boundary(r, m) {
        assert(k == m);
        assert(b.take(m) =~= b);
    } else {
        is_char_boundary_start_end_of_seq(r);
        assert(m < r.len());
        assert(b.take(m) =~= b);
        assert(!valid_utf8(b));
        lemma_prefix_valid_iff_boundary(r, k);
        assert(b.take(k) =~= r.take(k));
        assert forall|j: int| k < j <= b.len() implies !valid_utf8(#[trigger] b.take(j)) by {
            assert(b.take(j) =~= r.take(j));
            lemma_prefix_valid_iff_boundary(r, j);
        }
        assert(0 <= k <= b.len() && valid_utf8(b.take(k)));
        let kk = longest_valid_prefix(b);
        assert(0 <= kk <= b.len() && valid_utf8(b.take(kk)) && forall|j: int|
            kk < j <= b.len() ==> !valid_utf8(#[trigger] b.take(j)));
        assert(kk == k) by {
            if kk > k {
                assert(!valid_utf8(b.take(kk)));
            }
            if kk < k {
                assert(!valid_utf8(b.take(k)));
            }
        }
        let sfx = r.subrange(k, r.len() as int);
        valid_utf8_split(r, k);
        assert(valid_utf8(sfx));
        lemma_first_scalar_encodes(sfx);
        let nk = length_of_first_scalar(sfx);
        let t = sfx.take(nk);
        let ch = decode_first_scalar(sfx) as char;
        assert(is_char_boundary(sfx, nk)) by {
            assert(is_char_boundary(pop_first_scalar(sfx), 0));
        }
        lemma_suffix_boundary(r, k, nk);
        assert(k + nk > m) by {
            if k + nk <= m {
                assert(!is_char_boundary(r, k + nk));
            }
        }
        let rest = b.skip(k);
        assert(rest =~= t.take(m - k));
        assert(0 < rest.len() < encode_utf8(seq![ch]).len());
        assert(encode_utf8(seq![ch]).take(rest.len() as int) == rest);
        assert(truncated_char(rest));
    }
}

proof fn lemma_prefix_boundary_at_most(r: Seq<u8>, u: int, x: int)
    requires
        valid_utf8(r),
        0 <= x <= u <= r.len(),
        valid_utf8(r.take(u)),
    ensures
        boundary_at_most(r.take(u), x) == boundary_at_most(r, x),
    decreases x,
{
    if x > 0 {
        lemma_prefix_boundaries(r, u, x);
        lemma_prefix_boundary_at_most(r, u, x - 1);
    }
}

/// The bytes the store reads for a byte page at `offset`: up to the limit
/// and room for one character cut at the end, or to the end of the text.
pub open spec fn byte_page_read(text: Seq<u8>, offset: int, limit: u32) -> Seq<u8> {
    let end = offset + limit + UTF8_MAX_TRAILING_BYTES;
    text.subrange(offset, if end < text.len() { end } else { text.len() as int })
}

/// The length of the byte page at `offset`, as a byte page built from what
/// the store read returns it; the next page starts this far on.
pub open spec fn byte_page_len(text: Seq<u8>, offset: int, limit: u32) -> int {
    let read = byte_page_read(text, offset, limit);
    match usable_bytes(read) {
        Some(u) => byte_page_end(read, u, limit),
        None => 0,
    }
}

/// The texts of the byte pages from `offset` on, each page starting where
/// the previous one ended, until the end of the text.
pub open spec fn byte_page_chain(text: Seq<u8>, offset: int, limit: u32) -> Seq<u8>
    decreases text.len() - offset,
{
    if offset < 0 || offset >= text.len() {
        Seq::empty()
    } else {
        let e = byte_page_len(text, offset, limit);
        if e <= 0 || offset + e > text.len() {
            Seq::empty()
        } else {
            byte_page_read(text, offset, limit).take(e) + byte_page_chain(text, offset + e, limit)
        }
    }
}

/// How many byte pages are chained from `offset` to the end of the text.
pub open spec fn byte_page_count(text: Seq<u8>, offset: int, limit: u32) -> nat
    decreases text.len() - offset,
{
    if offset < 0 || offset >= text.len() {
        0
    } else {
        let e = byte_page_len(text, offset, limit);
        if e <= 0 || offset + e > text.len() {
            0
        } else {
            1 + byte_page_count(text, offset + e, limit)
        }
    }
}

/// One byte page of a valid text, from a character boundary before its end:
/// the read is usable, the page is not empty and within the limit, it ends
/// at a character boundary, and it holds exactly the text's bytes there.
pub proof fn byte_page_step(text: Seq<u8>, offset: int, limit: u32)
    requires
        valid_utf8(text),
        0 <= offset < text.len(),
        is_char_boundary(text, offset),
        MIN_SEARCH_TEXT_BYTE_PAGE_BYTES <= limit,
    ensures
        usable_bytes(byte_page_read(text, offset, limit)) is Some,
        0 < byte_page_len(text, offset, limit) <= limit,
        offset + byte_page_len(text, offset, limit) <= text.len(),
        is_char_boundary(text, offset + byte_page_len(text, offset, limit)),
        byte_page_read(text, offset, limit).take(byte_page_len(text, offset, limit))
            == text.subrange(offset, offset + byte_page_len(text, offset, limit)),
{
    let r = text.subrange(offset, text.len() as int);
    valid_utf8_split(text, offset);
    assert(valid_utf8(r));
    let read = byte_page_read(text, offset, limit);
    let m = read.len() as int;
    assert(read =~= r.take(m));
    lemma_first_scalar_encodes(r);
    let n = length_of_first_scalar(r);
    lemma_usable_prefix(r, m);
    let u = boundary_at_most(r, m);
    lemma_boundary_at_most(r, m);
    assert(is_char_boundary(r, n)) by {
        assert(is_char_boundary(pop_first_scalar(r), 0));
    }
    assert(u >= n) by {
        if u < n {
            assert(!is_char_boundary(r, n));
        }
    }
    lemma_prefix_valid_iff_boundary(r, u);
    assert(read.take(u) =~= r.take(u));
    let x = if (limit as int) < u {
        limit as int
    } else {
        u
    };
    lemma_prefix_boundary_at_most(r, u, x);
    let e = boundary_at_most(r, x);
    lemma_boundary_at_most(r, x);
    assert(byte_page_len(text, offset, limit) == e);
    assert(e >= n) by {
        if e < n {
            assert(!is_char_boundary(r, n));
        }
    }
    lemma_suffix_boundary(text, offset, e);
    assert(read.take(e) =~= text.subrange(offset, offset + e));
}

/// Byte pages chained from a character boundary, each starting where the
/// previous one ended (the next offset that `byte_page_from_read` returns),
/// give back the text from there exactly once: no byte is lost and none is
/// repeated, and since every page makes progress there are at most as many
/// pages as bytes left.
pub proof fn byte_pages_cover_text(text: Seq<u8>, offset: int, limit: u32)
    requires
        valid_utf8(text),
        0 <= offset <= text.len(),
        is_char_boundary(text, offset),
        MIN_SEARCH_TEXT_BYTE_PAGE_BYTES <= limit,
    ensures
        byte_page_chain(text, offset, limit) == text.subrange(offset, text.len() as int),
        byte_page_count(text, offset, limit) <= text.len() - offset,
    decreases text.len() - offset,
{
    if offset < text.len() {
        byte_page_step(text, offset, limit);
        let e = byte_page_len(text, offset, limit);
        byte_pages_cover_text(text, offset + e, limit);
        assert(text.subrange(offset, offset + e) + text.subrange(offset + e, text.len() as int)
            =~= text.subrange(offset, text.len() as int));
    } else {
        assert(text.subrange(offset, text.len() as int) =~= Seq::<u8>::empty());
    }
}

} // verus!
