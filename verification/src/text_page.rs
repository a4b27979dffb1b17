use vstd::prelude::*;
use vstd::utf8::*;
use crate::digest::{ascii_string, hex_digit, hex_digit_exec};
use crate::error::MetaStoreError;
use crate::selection::SearchSelection;

verus! {

/// Most code points one text page returns.
pub const MAX_SEARCH_TEXT_PAGE_CODE_POINTS: u32 = 8192;
/// Most bytes one byte page returns.
pub const MAX_SEARCH_TEXT_BYTE_PAGE_BYTES: u32 = 32768;
/// Fewest bytes a byte page may ask for: room for any one character.
pub const MIN_SEARCH_TEXT_BYTE_PAGE_BYTES: u32 = 4;
/// Bytes that may follow the page end inside one character.
pub const UTF8_MAX_TRAILING_BYTES: u32 = 3;

/// Why a text page request was refused.
#[derive(Clone, Copy, Debug, PartialEq, Eq, Structural)]
pub enum SearchTextPageRequestError {
    InvalidLimit,
    InvalidOffset,
}

/// A request for one page of the clean text of a selection, by bytes.
#[derive(Debug, PartialEq, Eq)]
pub struct SearchTextBytePageRequest {
    selection: SearchSelection,
    offset_bytes: u64,
    limit_bytes: u32,
}

impl SearchTextBytePageRequest {
    /// A byte page request: the limit must be 4 to 32768 bytes and the offset
    /// must fit a stored integer.
    pub fn new(selection: SearchSelection, offset_bytes: u64, limit_bytes: u32) -> (r: Result<
        Self,
        SearchTextPageRequestError,
    >)
        ensures
            !(MIN_SEARCH_TEXT_BYTE_PAGE_BYTES <= limit_bytes <= MAX_SEARCH_TEXT_BYTE_PAGE_BYTES)
                ==> r == Err::<Self, SearchTextPageRequestError>(
                SearchTextPageRequestError::InvalidLimit,
            ),
            MIN_SEARCH_TEXT_BYTE_PAGE_BYTES <= limit_bytes <= MAX_SEARCH_TEXT_BYTE_PAGE_BYTES
                && offset_bytes > i64::MAX ==> r == Err::<Self, SearchTextPageRequestError>(
                SearchTextPageRequestError::InvalidOffset,
            ),
            MIN_SEARCH_TEXT_BYTE_PAGE_BYTES <= limit_bytes <= MAX_SEARCH_TEXT_BYTE_PAGE_BYTES
                && offset_bytes <= i64::MAX ==> (r matches Ok(q) && q@ == (
                selection,
                offset_bytes,
                limit_bytes,
            )),
    {
        if !(MIN_SEARCH_TEXT_BYTE_PAGE_BYTES <= limit_bytes && limit_bytes
            <= MAX_SEARCH_TEXT_BYTE_PAGE_BYTES) {
            return Err(SearchTextPageRequestError::InvalidLimit);
        }
        if offset_bytes > 9_223_372_036_854_775_807u64 {
            return Err(SearchTextPageRequestError::InvalidOffset);
        }
        Ok(SearchTextBytePageRequest { selection, offset_bytes, limit_bytes })
    }

    pub fn selection(&self) -> (r: &SearchSelection)
        ensures
            *r == self@.0,
    {
        &self.selection
    }

    pub fn offset_bytes(&self) -> (r: u64)
        ensures
            r == self@.1,
    {
        self.offset_bytes
    }

    pub fn limit_bytes(&self) -> (r: u32)
        ensures
            r == self@.2,
    {
        self.limit_bytes
    }
}

impl SearchTextBytePageRequest {
    #[verifier::type_invariant]
    spec fn request_limits_hold(self) -> bool {
        byte_request_ok((self.selection, self.offset_bytes, self.limit_bytes))
    }
}

impl Clone for SearchTextBytePageRequest {
    fn clone(&self) -> (r: Self)
        ensures
            r == *self,
    {
        proof {
            use_type_invariant(self);
        }
        SearchTextBytePageRequest {
            selection: self.selection.duplicate(),
            offset_bytes: self.offset_bytes,
            limit_bytes: self.limit_bytes,
        }
    }
}

impl View for SearchTextBytePageRequest {
    /// The selection, the offset and the limit.
    type V = (SearchSelection, u64, u32);

    closed spec fn view(&self) -> (SearchSelection, u64, u32) {
        (self.selection, self.offset_bytes, self.limit_bytes)
    }
}

/// What every byte page request built by `new` satisfies.
pub open spec fn byte_request_ok(request: (SearchSelection, u64, u32)) -> bool {
    &&& MIN_SEARCH_TEXT_BYTE_PAGE_BYTES <= request.2 <= MAX_SEARCH_TEXT_BYTE_PAGE_BYTES
    &&& request.1 <= i64::MAX
}

/// One page of clean text, by bytes.
#[derive(Clone, Debug, PartialEq, Eq)]
pub struct SearchTextBytePage {
    pub selection: SearchSelection,
    pub offset_bytes: u64,
    pub next_offset_bytes: u64,
    pub total_bytes: u64,
    pub text: String,
}

/// A byte page, or why none is returned.
#[derive(Clone, Debug, PartialEq, Eq)]
pub enum SearchTextBytePageResolution {
    Current(SearchTextBytePage),
    Stale,
    NotFound,
    InvalidOffset,
}

/// Opaque continuation cursor: a code-point offset into the clean text,
/// which clients only echo back.
#[derive(Clone, Copy, Debug, PartialEq, Eq, Structural)]
pub struct SearchTextPageCursor {
    code_point_offset: u64,
}

/// Why a cursor token was refused.
#[derive(Clone, Copy, Debug, PartialEq, Eq, Structural)]
pub enum SearchTextPageCursorError {
    Invalid,
}

/// The bytes of the token prefix `cp1:`.
pub open spec fn token_prefix() -> Seq<u8> {
    seq![99u8, 112u8, 49u8, 58u8]
}

/// Value of one hexadecimal digit, either case.
pub open spec fn hex_value(b: u8) -> Option<nat> {
    if 48 <= b <= 57 {
        Some((b - 48) as nat)
    } else if 97 <= b <= 102 {
        Some((b - 87) as nat)
    } else if 65 <= b <= 70 {
        Some((b - 55) as nat)
    } else {
        None
    }
}

/// Every byte is a hexadecimal digit.
pub open spec fn all_hex(digits: Seq<u8>) -> bool {
    forall|i: int| 0 <= i < digits.len() ==> hex_value(#[trigger] digits[i]) is Some
}

/// The number a sequence of hexadecimal digits denotes.
pub open spec fn hex_number(digits: Seq<u8>) -> nat
    decreases digits.len(),
{
    if digits.len() == 0 {
        0
    } else {
        hex_number(digits.drop_last()) * 16 + hex_value(digits.last()).unwrap()
    }
}

/// The offset a cursor token names: `cp1:` and sixteen bytes that parse as
/// a hexadecimal number (an optional `+`, then digits of either case) no
/// larger than the largest stored integer.
pub open spec fn token_offset(token: Seq<u8>) -> Option<u64> {
    if token.len() != 20 || token.take(4) != token_prefix() {
        None
    } else {
        let encoded = token.skip(4);
        let digits = if encoded[0] == 43u8 {
            encoded.skip(1)
        } else {
            encoded
        };
        if !all_hex(digits) || hex_number(digits) > i64::MAX {
            None
        } else {
            Some(hex_number(digits) as u64)
        }
    }
}

/// The last `k` lowercase hexadecimal digits of `n`, most significant first.
pub open spec fn hex_fixed(n: nat, k: nat) -> Seq<u8>
    decreases k,
{
    if k == 0 {
        Seq::empty()
    } else {
        hex_fixed(n / 16, (k - 1) as nat).push(hex_digit((n % 16) as u8))
    }
}

/// The token of a cursor: `cp1:` and sixteen lowercase hexadecimal digits.
pub open spec fn token_of(offset: u64) -> Seq<u8> {
    token_prefix() + hex_fixed(offset as nat, 16)
}

/// Sixteen to the power `k`.
pub open spec fn pow16(k: nat) -> nat
    decreases k,
{
    if k == 0 {
        1
    } else {
        16 * pow16((k - 1) as nat)
    }
}

proof fn lemma_hex_fixed(n: nat, k: nat)
    requires
        n < pow16(k),
    ensures
        hex_fixed(n, k).len() == k,
        all_hex(hex_fixed(n, k)),
        hex_number(hex_fixed(n, k)) == n,
        forall|i: int| 0 <= i < k ==> #[trigger] hex_fixed(n, k)[i] != 43u8,
    decreases k,
{
    if k > 0 {
        assert(n / 16 < pow16((k - 1) as nat)) by (nonlinear_arith)
            requires
                n < pow16(k),
                pow16(k) == 16 * pow16((k - 1) as nat),
        ;
        lemma_hex_fixed(n / 16, (k - 1) as nat);
        let s = hex_fixed(n, k);
        assert(s.drop_last() =~= hex_fixed(n / 16, (k - 1) as nat));
        assert(hex_value(hex_digit((n % 16) as u8)) == Some(n % 16));
        assert forall|i: int| 0 <= i < s.len() implies hex_value(#[trigger] s[i]) is Some by {
            if i < k - 1 {
                assert(s[i] == hex_fixed(n / 16, (k - 1) as nat)[i]);
            }
        }
        assert forall|i: int| 0 <= i < k implies #[trigger] s[i] != 43u8 by {
            if i < k - 1 {
                assert(s[i] == hex_fixed(n / 16, (k - 1) as nat)[i]);
            }
        }
    }
}

proof fn lemma_pow16_16()
    ensures
        pow16(16) == 18446744073709551616,
{
    reveal_with_fuel(pow16, 17);
}

/// Reading back the token of a cursor gives the cursor's offset, for every
/// offset a cursor can hold.
pub proof fn cursor_token_round_trip(offset: u64)
    requires
        offset <= i64::MAX,
    ensures
        token_offset(token_of(offset)) == Some(offset),
{
    lemma_pow16_16();
    lemma_hex_fixed(offset as nat, 16);
    let t = token_of(offset);
    assert(t.take(4) =~= token_prefix());
    assert(t.skip(4) =~= hex_fixed(offset as nat, 16));
    assert(t.skip(4)[0] != 43u8);
}

/// A lowercase hexadecimal digit.
pub open spec fn lowercase_hex(b: u8) -> bool {
    48 <= b <= 57 || 97 <= b <= 102
}

/// A token in the form cursors write: `cp1:` and sixteen lowercase
/// hexadecimal digits.
pub open spec fn lowercase_token(token: Seq<u8>) -> bool {
    &&& token.len() == 20
    &&& token.take(4) == token_prefix()
    &&& forall|i: int| 4 <= i < 20 ==> lowercase_hex(#[trigger] token[i])
}

proof fn lemma_lowercase_digits_fixed(digits: Seq<u8>)
    requires
        forall|i: int| 0 <= i < digits.len() ==> lowercase_hex(#[trigger] digits[i]),
    ensures
        hex_fixed(hex_number(digits), digits.len()) == digits,
    decreases digits.len(),
{
    if digits.len() > 0 {
        let prefix = digits.drop_last();
        assert forall|i: int| 0 <= i < prefix.len() implies lowercase_hex(#[trigger] prefix[i]) by {
            assert(prefix[i] == digits[i]);
        }
        lemma_lowercase_digits_fixed(prefix);
        let last = digits.last();
        assert(lowercase_hex(digits[digits.len() - 1]));
        let v = hex_value(last).unwrap();
        assert(v < 16);
        assert(hex_digit(v as u8) == last);
        let a = hex_number(prefix);
        let n = hex_number(digits);
        assert(n == a * 16 + v);
        assert(n / 16 == a && n % 16 == v) by (nonlinear_arith)
            requires
                n == a * 16 + v,
                v < 16,
        ;
        assert(hex_fixed(n, digits.len()) == hex_fixed(a, prefix.len()).push(hex_digit(v as u8)));
        assert(digits =~= prefix.push(last));
    }
}

/// A token in the form cursors write, once read back, is written again
/// unchanged.
pub proof fn lowercase_cursor_token_round_trip(token: Seq<u8>)
    requires
        lowercase_token(token),
        token_offset(token) is Some,
    ensures
        token_of(token_offset(token).unwrap()) == token,
{
    let digits = token.skip(4);
    assert forall|i: int| 0 <= i < digits.len() implies lowercase_hex(#[trigger] digits[i]) by {
        assert(digits[i] == token[i + 4]);
    }
    assert(lowercase_hex(token[4]));
    assert(digits[0] != 43u8);
    lemma_lowercase_digits_fixed(digits);
    assert(token =~= token_prefix() + digits);
}

impl SearchTextPageCursor {
    #[verifier::type_invariant]
    spec fn offset_fits(self) -> bool {
        self.code_point_offset <= i64::MAX
    }
}

impl View for SearchTextPageCursor {
    /// The code-point offset the cursor names.
    type V = u64;

    closed spec fn view(&self) -> u64 {
        self.code_point_offset
    }
}

impl SearchTextPageCursor {
    /// The cursor at the start of the text.
    pub fn start() -> (r: Self)
        ensures
            r@ == 0,
    {
        SearchTextPageCursor { code_point_offset: 0 }
    }

    fn for_offset(code_point_offset: u64) -> (r: Self)
        requires
            code_point_offset <= i64::MAX,
        ensures
            r@ == code_point_offset,
    {
        SearchTextPageCursor { code_point_offset }
    }

    /// The code-point offset the cursor names.
    pub fn code_point_offset(&self) -> (r: u64)
        ensures
            r == self@,
            r <= i64::MAX,
    {
        proof {
            use_type_invariant(self);
        }
        self.code_point_offset
    }

    /// Reads a cursor back from its token.
    #[verifier::loop_isolation(false)]
    pub fn from_opaque_token(token: &str) -> (r: Result<Self, SearchTextPageCursorError>)
        ensures
            match token_offset(encode_utf8(token@)) {
                Some(n) => r matches Ok(c) && c@ == n,
                None => r == Err::<Self, SearchTextPageCursorError>(
                    SearchTextPageCursorError::Invalid,
                ),
            },
    {
        let bytes = token.as_bytes();
        if bytes.len() != 20 || bytes[0] != 99 || bytes[1] != 112 || bytes[2] != 49 || bytes[3]
            != 58 {
            proof {
                if bytes@.len() == 20 && bytes@.take(4) == token_prefix() {
                    assert(bytes@[0] == bytes@.take(4)[0]);
                    assert(bytes@[1] == bytes@.take(4)[1]);
                    assert(bytes@[2] == bytes@.take(4)[2]);
                    assert(bytes@[3] == bytes@.take(4)[3]);
                }
            }
            return Err(SearchTextPageCursorError::Invalid);
        }
        assert(bytes@.take(4) =~= token_prefix());
        let ghost encoded = bytes@.skip(4);
        let start: usize = if bytes[4] == 43 {
            5
        } else {
            4
        };
        let ghost digits = bytes@.skip(start as int);
        assert(digits =~= (if encoded[0] == 43u8 {
            encoded.skip(1)
        } else {
            encoded
        }));
        let mut value: u64 = 0;
        let mut i: usize = start;
        assert(digits.take(0) =~= Seq::<u8>::empty());
        while i < 20
            invariant
                start <= i <= 20,
                4 <= start <= 5,
                bytes@.len() == 20,
                digits == bytes@.skip(start as int),
                all_hex(digits.take(i - start)),
                value == hex_number(digits.take(i - start)),
                hex_number(digits.take(i - start)) < pow16((i - start) as nat),
            decreases 20 - i,
        {
            let b = bytes[i];
            let d: u64 = if 48 <= b && b <= 57 {
                (b - 48) as u64
            } else if 97 <= b && b <= 102 {
                (b - 87) as u64
            } else if 65 <= b && b <= 70 {
                (b - 55) as u64
            } else {
                proof {
                    assert(digits[i - start] == b);
                    assert(!all_hex(digits));
                }
                return Err(SearchTextPageCursorError::Invalid);
            };
            let ghost prev = digits.take(i - start);
            let ghost next = digits.take(i - start + 1);
            proof {
                assert(next.drop_last() =~= prev);
                assert(next.last() == b);
                assert(pow16((i - start + 1) as nat) == 16 * pow16((i - start) as nat));
                lemma_pow16_16();
                lemma_pow16_monotone((i - start + 1) as nat, 16);
                assert(value * 16 + d < pow16((i - start + 1) as nat)) by (nonlinear_arith)
                    requires
                        value < pow16((i - start) as nat),
                        d < 16,
                        pow16((i - start + 1) as nat) == 16 * pow16((i - start) as nat),
                ;
                assert forall|j: int| 0 <= j < next.len() implies hex_value(#[trigger] next[j])
                    is Some by {
                    if j < next.len() - 1 {
                        assert(next[j] == prev[j]);
                    }
                }
            }
            value = value * 16 + d;
            i += 1;
        }
        assert(digits.take(20 - start) =~= digits);
        if value > 9_223_372_036_854_775_807u64 {
            return Err(SearchTextPageCursorError::Invalid);
        }
        Ok(SearchTextPageCursor { code_point_offset: value })
    }

    /// The token that names this cursor.
    pub fn to_opaque_token(self) -> (r: String)
        ensures
            encode_utf8(r@) == token_of(self@),
            self@ <= i64::MAX,
    {
        proof {
            use_type_invariant(&self);
        }
        let mut digits: Vec<u8> = Vec::new();
        let mut n: u64 = self.code_point_offset;
        let mut k: usize = 0;
        while k < 16
            invariant
                k <= 16,
                digits@.len() == k,
                forall|j: int| 0 <= j < k ==> #[trigger] digits@[j] < 128,
                hex_fixed(self.code_point_offset as nat, 16) == hex_fixed(n as nat, (16 - k) as nat)
                    + digits@,
            decreases 16 - k,
        {
            let ghost before = digits@;
            let d = hex_digit_exec((n % 16) as u8);
            digits.insert(0, d);
            proof {
                assert(hex_fixed(n as nat, (16 - k) as nat) == hex_fixed(
                    (n / 16) as nat,
                    (16 - k - 1) as nat,
                ).push(hex_digit((n % 16) as u8)));
                assert(hex_fixed(n as nat, (16 - k) as nat) + before =~= hex_fixed(
                    (n / 16) as nat,
                    (16 - k - 1) as nat,
                ) + digits@);
            }
            n = n / 16;
            k += 1;
        }
        assert(hex_fixed(n as nat, 0) =~= Seq::<u8>::empty());
        assert(digits@ =~= hex_fixed(self.code_point_offset as nat, 16));
        let mut token: Vec<u8> = Vec::new();
        token.push(99);
        token.push(112);
        token.push(49);
        token.push(58);
        let mut j: usize = 0;
        while j < 16
            invariant
                j <= 16,
                digits@.len() == 16,
                forall|x: int| 0 <= x < 16 ==> #[trigger] digits@[x] < 128,
                token@ == token_prefix() + digits@.take(j as int),
            decreases 16 - j,
        {
            token.push(digits[j]);
            assert(digits@.take(j + 1) =~= digits@.take(j as int).push(digits@[j as int]));
            j += 1;
        }
        assert(digits@.take(16) =~= digits@);
        assert forall|x: int| 0 <= x < token@.len() implies #[trigger] token@[x] < 128 by {
            if x >= 4 {
                assert(token@[x] == digits@[x - 4]);
            }
        }
        ascii_string(token)
    }
}

proof fn lemma_pow16_monotone(a: nat, b: nat)
    requires
        a <= b,
    ensures
        pow16(a) <= pow16(b),
    decreases b,
{
    if a < b {
        lemma_pow16_monotone(a, (b - 1) as nat);
    }
}

/// A request for one page of the clean text of a selection, by code points.
#[derive(Debug, PartialEq, Eq)]
pub struct SearchTextPageRequest {
    selection: SearchSelection,
    cursor: SearchTextPageCursor,
    limit_code_points: u32,
}

impl SearchTextPageRequest {
    #[verifier::type_invariant]
    spec fn request_limit_holds(self) -> bool {
        1 <= self.limit_code_points <= MAX_SEARCH_TEXT_PAGE_CODE_POINTS
    }
}

impl Clone for SearchTextPageRequest {
    fn clone(&self) -> (r: Self)
        ensures
            r == *self,
    {
        proof {
            use_type_invariant(self);
        }
        SearchTextPageRequest {
            selection: self.selection.duplicate(),
            cursor: self.cursor,
            limit_code_points: self.limit_code_points,
        }
    }
}

impl View for SearchTextPageRequest {
    /// The selection, the cursor offset and the limit.
    type V = (SearchSelection, u64, u32);

    closed spec fn view(&self) -> (SearchSelection, u64, u32) {
        (self.selection, self.cursor@, self.limit_code_points)
    }
}

impl SearchTextPageRequest {
    /// A code-point page request: the limit must be 1 to 8192 code points; a
    /// missing cursor starts at the beginning of the text.
    pub fn new(
        selection: SearchSelection,
        cursor: Option<SearchTextPageCursor>,
        limit_code_points: u32,
    ) -> (r: Result<Self, SearchTextPageRequestError>)
        ensures
            !(1 <= limit_code_points <= MAX_SEARCH_TEXT_PAGE_CODE_POINTS) ==> r == Err::<
                Self,
                SearchTextPageRequestError,
            >(SearchTextPageRequestError::InvalidLimit),
            1 <= limit_code_points <= MAX_SEARCH_TEXT_PAGE_CODE_POINTS ==> (r matches Ok(q) && q@
                == (selection, match cursor {
                Some(c) => c@,
                None => 0,
            }, limit_code_points)),
    {
        if !(1 <= limit_code_points && limit_code_points <= MAX_SEARCH_TEXT_PAGE_CODE_POINTS) {
            return Err(SearchTextPageRequestError::InvalidLimit);
        }
        let cursor = match cursor {
            Some(c) => c,
            None => SearchTextPageCursor::start(),
        };
        Ok(SearchTextPageRequest { selection, cursor, limit_code_points })
    }

    pub fn selection(&self) -> (r: &SearchSelection)
        ensures
            *r == self@.0,
    {
        &self.selection
    }

    pub fn cursor(&self) -> (r: SearchTextPageCursor)
        ensures
            r@ == self@.1,
    {
        self.cursor
    }

    pub fn limit_code_points(&self) -> (r: u32)
        ensures
            r == self@.2,
    {
        self.limit_code_points
    }
}

/// One page of clean text, by code points.
#[derive(Clone, Debug, PartialEq, Eq)]
pub struct SearchTextPage {
    pub selection: SearchSelection,
    pub cursor: SearchTextPageCursor,
    pub next_cursor: Option<SearchTextPageCursor>,
    pub total_code_points: u64,
    pub text: String,
}

/// A code-point page, or why none is returned.
#[derive(Clone, Debug, PartialEq, Eq)]
pub enum SearchTextPageResolution {
    Current(SearchTextPage),
    Stale,
    NotFound,
    InvalidOffset,
}

/// The byte range a byte page reads: the first byte (counting from one) and
/// the length, which leaves room for a character cut at the page end.
pub fn byte_page_query_bounds(request: &SearchTextBytePageRequest) -> (r: Result<
    (i64, i64),
    MetaStoreError,
>)
    ensures
        request@.1 < i64::MAX ==> r == Ok::<(i64, i64), MetaStoreError>(
            ((request@.1 + 1) as i64, (request@.2 + UTF8_MAX_TRAILING_BYTES) as i64),
        ),
        request@.1 >= i64::MAX ==> r == Err::<(i64, i64), MetaStoreError>(
            MetaStoreError::InvalidValue("search_text_page.offset_bytes"),
        ),
{
    proof {
        use_type_invariant(request);
    }
    if request.offset_bytes >= 9_223_372_036_854_775_807u64 {
        return Err(MetaStoreError::InvalidValue("search_text_page.offset_bytes"));
    }
    let start = (request.offset_bytes + 1) as i64;
    let read_limit = (request.limit_bytes + UTF8_MAX_TRAILING_BYTES) as i64;
    Ok((start, read_limit))
}

/// The code-point range a text page reads: the first code point (counting
/// from one) and the length.
pub fn code_point_query_bounds(request: &SearchTextPageRequest) -> (r: Result<
    (i64, i64),
    MetaStoreError,
>)
    ensures
        request@.1 < i64::MAX ==> r == Ok::<(i64, i64), MetaStoreError>(
            ((request@.1 + 1) as i64, request@.2 as i64),
        ),
        request@.1 >= i64::MAX ==> r == Err::<(i64, i64), MetaStoreError>(
            MetaStoreError::InvalidValue("search_text_page.offset_code_points"),
        ),
{
    let offset = request.cursor.code_point_offset();
    if offset >= 9_223_372_036_854_775_807u64 {
        return Err(MetaStoreError::InvalidValue("search_text_page.offset_code_points"));
    }
    Ok(((offset + 1) as i64, request.limit_code_points as i64))
}

/// The rest of a byte sequence starts a character that it cuts off.
pub open spec fn truncated_char(rest: Seq<u8>) -> bool {
    exists|c: char|
        0 < rest.len() < encode_utf8(seq![c]).len() && #[trigger] encode_utf8(seq![c]).take(
            rest.len() as int,
        ) == rest
}

/// The length of the longest valid UTF-8 prefix.
pub open spec fn longest_valid_prefix(bytes: Seq<u8>) -> int {
    choose|k: int|
        0 <= k <= bytes.len() && valid_utf8(bytes.take(k)) && forall|j: int|
            k < j <= bytes.len() ==> !valid_utf8(#[trigger] bytes.take(j))
}

/// Calls `std::str::from_utf8`: `None` when the bytes are valid UTF-8;
/// otherwise the length of the longest valid prefix and whether the input
/// ends inside a character, as the error's `valid_up_to` and `error_len`
/// document them.
#[verifier::external_body]
fn utf8_error(bytes: &[u8]) -> (r: Option<(usize, bool)>)
    ensures
        r is None <==> valid_utf8(bytes@),
        r matches Some((k, cut)) ==> {
            &&& k < bytes@.len()
            &&& valid_utf8(bytes@.take(k as int))
            &&& forall|j: int| k < j <= bytes@.len() ==> !valid_utf8(#[trigger] bytes@.take(j))
            &&& cut == truncated_char(bytes@.skip(k as int))
        },
{
    match std::str::from_utf8(bytes) {
        Ok(_) => None,
        Err(e) => Some((e.valid_up_to(), e.error_len().is_none())),
    }
}

/// How much of the bytes read for a page is usable text: all of it when it
/// is valid UTF-8, else its valid prefix when that is not empty and only a
/// character cut at the end follows; `None` when the read starts inside a
/// character or the text is malformed.
pub open spec fn usable_bytes(bytes: Seq<u8>) -> Option<int> {
    if valid_utf8(bytes) {
        Some(bytes.len() as int)
    } else {
        let k = longest_valid_prefix(bytes);
        if k > 0 && truncated_char(bytes.skip(k)) {
            Some(k)
        } else {
            None
        }
    }
}

/// The last character boundary of `bytes` at or before `m`.
pub open spec fn boundary_at_most(bytes: Seq<u8>, m: int) -> int
    decreases m,
{
    if m <= 0 {
        0
    } else if is_char_boundary(bytes, m) {
        m
    } else {
        boundary_at_most(bytes, m - 1)
    }
}

/// The bytes of a byte page: the usable bytes up to the limit, cut back to a
/// character boundary.
pub open spec fn byte_page_end(bytes: Seq<u8>, usable: int, limit: u32) -> int {
    boundary_at_most(bytes.take(usable), if (limit as int) < usable {
        limit as int
    } else {
        usable
    })
}

fn bytes_prefix(bytes: &Vec<u8>, k: usize) -> (r: Vec<u8>)
    requires
        k <= bytes@.len(),
    ensures
        r@ == bytes@.take(k as int),
{
    let mut out: Vec<u8> = Vec::new();
    let mut i: usize = 0;
    while i < k
        invariant
            i <= k <= bytes@.len(),
            out@ == bytes@.take(i as int),
        decreases k - i,
    {
        out.push(bytes[i]);
        assert(bytes@.take(i + 1) =~= bytes@.take(i as int).push(bytes@[i as int]));
        i += 1;
    }
    out
}

/// Builds a byte page from what the store read: the total byte length of
/// the clean text and the bytes from the request's offset. Pages chained by
/// their next offsets cover the text exactly once
/// (`page_chain::byte_pages_cover_text`).
pub fn byte_page_from_read(
    selection: SearchSelection,
    request: &SearchTextBytePageRequest,
    total: i64,
    bytes: Vec<u8>,
) -> (r: Result<SearchTextBytePageResolution, MetaStoreError>)
    ensures
        total < 0 ==> r == Err::<SearchTextBytePageResolution, MetaStoreError>(
            MetaStoreError::InvalidValue("resume_version.clean_text"),
        ),
        total >= 0 && (request@.1 > total || usable_bytes(bytes@) is None) ==> r == Ok::<
            SearchTextBytePageResolution,
            MetaStoreError,
        >(SearchTextBytePageResolution::InvalidOffset),
        total >= 0 && request@.1 <= total && usable_bytes(bytes@) is Some ==> {
            let end = byte_page_end(bytes@, usable_bytes(bytes@).unwrap(), request@.2);
            r matches Ok(SearchTextBytePageResolution::Current(page)) && page.selection
                == selection && page.offset_bytes == request@.1 && page.total_bytes == total
                && encode_utf8(page.text@) == bytes@.take(end) && page.next_offset_bytes
                == request@.1 + end
        },
{
    proof {
        use_type_invariant(request);
    }
    if total < 0 {
        return Err(MetaStoreError::InvalidValue("resume_version.clean_text"));
    }
    let total_bytes = total as u64;
    if request.offset_bytes > total_bytes {
        return Ok(SearchTextBytePageResolution::InvalidOffset);
    }
    let usable: usize = match utf8_error(bytes.as_slice()) {
        None => {
            assert(bytes@.take(bytes@.len() as int) =~= bytes@);
            bytes.len()
        },
        Some((k, cut)) => {
            proof {
                let m = longest_valid_prefix(bytes@);
                assert(0 <= k <= bytes@.len() && valid_utf8(bytes@.take(k as int)) && forall|
                    j: int,
                |
                    k < j <= bytes@.len() ==> !valid_utf8(#[trigger] bytes@.take(j)));
                assert(m == k as int) by {
                    if m < k {
                        assert(!valid_utf8(bytes@.take(k as int)));
                    }
                    if m > k {
                        assert(!valid_utf8(bytes@.take(m)));
                    }
                }
            }
            if cut && k > 0 {
                k
            } else {
                return Ok(SearchTextBytePageResolution::InvalidOffset);
            }
        },
    };
    let prefix = bytes_prefix(&bytes, usable);
    let valid = match crate::digest::string_from_utf8(prefix) {
        Some(s) => s,
        None => {
            proof {
                assert(false);
            }
            return Err(MetaStoreError::StorageInvariant);
        },
    };
    let ghost vb = bytes@.take(usable as int);
    assert(encode_utf8(valid@) == vb);
    proof {
        encode_utf8_valid_utf8(valid@);
    }
    let limit = request.limit_bytes as usize;
    let valid_len = valid.as_str().len();
    let mut page_bytes: usize = if limit < valid_len {
        limit
    } else {
        valid_len
    };
    assert(boundary_at_most(vb, page_bytes as int) == byte_page_end(bytes@, usable as int, request@.2));
    while page_bytes > 0 && !valid.as_str().is_char_boundary(page_bytes)
        invariant
            page_bytes <= valid_len,
            page_bytes <= limit,
            limit == request@.2,
            valid_len == vb.len(),
            encode_utf8(valid@) == vb,
            valid_utf8(vb),
            boundary_at_most(vb, page_bytes as int) == byte_page_end(
                bytes@,
                usable as int,
                request@.2,
            ),
        decreases page_bytes,
    {
        page_bytes -= 1;
    }
    proof {
        is_char_boundary_start_end_of_seq(vb);
    }
    let (head, _) = valid.as_str().split_at(page_bytes);
    let text = head.to_owned();
    assert(vb.subrange(0, page_bytes as int) =~= bytes@.take(page_bytes as int));
    assert(request@.1 <= i64::MAX && request@.2 <= MAX_SEARCH_TEXT_BYTE_PAGE_BYTES);
    let next_offset_bytes = request.offset_bytes + page_bytes as u64;
    Ok(
        SearchTextBytePageResolution::Current(
            SearchTextBytePage {
                selection,
                offset_bytes: request.offset_bytes,
                next_offset_bytes,
                total_bytes,
                text,
            },
        ),
    )
}

/// The number of code points of a text.
pub fn char_count(text: &str) -> (r: usize)
    ensures
        r == text@.len(),
{
    crate::text::char_count_fits(text);
    let mut count: usize = 0;
    for c in iter: text.chars()
        invariant
            iter.seq() == text@,
            text@.len() <= usize::MAX,
            count == iter.index(),
    {
        count += 1;
    }
    count
}

/// Builds a code-point page from what the store read: the total code-point
/// length of the clean text and the text from the cursor's offset. A cursor
/// for the rest is returned while the page ends before the text does.
pub fn code_point_page_from_read(
    selection: SearchSelection,
    request: &SearchTextPageRequest,
    total: i64,
    text: String,
) -> (r: Result<SearchTextPageResolution, MetaStoreError>)
    ensures
        total < 0 ==> r == Err::<SearchTextPageResolution, MetaStoreError>(
            MetaStoreError::InvalidValue("resume_version.clean_text"),
        ),
        total >= 0 && request@.1 > total ==> r == Ok::<SearchTextPageResolution, MetaStoreError>(
            SearchTextPageResolution::InvalidOffset,
        ),
        total >= 0 && request@.1 <= total && request@.1 + text@.len() > u64::MAX ==> r == Err::<
            SearchTextPageResolution,
            MetaStoreError,
        >(MetaStoreError::StorageInvariant),
        total >= 0 && request@.1 <= total && request@.1 + text@.len() <= u64::MAX ==> {
            let next = request@.1 + text@.len();
            r matches Ok(SearchTextPageResolution::Current(page)) && page.selection == selection
                && page.cursor@ == request@.1 && page.total_code_points == total && page.text
                == text && (if next < total {
                page.next_cursor matches Some(c) && c@ == next
            } else {
                page.next_cursor is None
            })
        },
{
    if total < 0 {
        return Err(MetaStoreError::InvalidValue("resume_version.clean_text"));
    }
    let total_code_points = total as u64;
    let cursor = request.cursor;
    let offset = cursor.code_point_offset();
    if offset > total_code_points {
        return Ok(SearchTextPageResolution::InvalidOffset);
    }
    let returned = char_count(text.as_str()) as u64;
    let next = match offset.checked_add(returned) {
        Some(n) => n,
        None => return Err(MetaStoreError::StorageInvariant),
    };
    let next_cursor = if next < total_code_points {
        Some(SearchTextPageCursor::for_offset(next))
    } else {
        None
    };
    Ok(
        SearchTextPageResolution::Current(
            SearchTextPage { selection, cursor, next_cursor, total_code_points, text },
        ),
    )
}

} // verus!
