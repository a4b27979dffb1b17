use vstd::prelude::*;
use vstd::utf8::*;
use crate::error::MetaStoreError;
use crate::ids::ActiveSearchProjection;
use crate::snapshot::{pairs_parse_error, projection_from_row};
use crate::projection_digest::text_pairs_view;

verus! {

/// Most predicates one filter may hold.
pub const MAX_SEARCH_FILTER_PREDICATES: usize = 32;
/// Most values one predicate may hold.
pub const MAX_SEARCH_FILTER_VALUES: usize = 64;
/// Largest selection cap a filter may ask for.
pub const MAX_BOUNDED_FILTER_SELECTION: usize = 100000;
/// Largest hydration cap.
pub const MAX_EXACT_HIT_HYDRATION: usize = 256;
/// Longest filter value, in bytes.
pub const MAX_SEARCH_FILTER_VALUE_BYTES: usize = 4096;
/// Most mentions that one hydration returns.
pub const MAX_HYDRATED_MENTIONS: usize = 2048;
/// Most string bytes that one hydration returns.
pub const MAX_HYDRATED_STRING_BYTES: usize = 2097152;
/// Earliest month a date range may start at: January 1900, counted in
/// months.
pub const MIN_FILTER_MONTH: i32 = 22801;

/// How a filter compares text values.
#[derive(Clone, Copy, Debug, PartialEq, Eq, Structural)]
pub enum SearchFilterCase {
    Exact,
    AsciiInsensitive,
}

/// Why a filter was refused.
#[derive(Clone, Copy, Debug, PartialEq, Eq, Structural)]
pub enum SearchProjectionFilterError {
    TooManyPredicates,
    EmptyValues,
    TooManyValues,
    ValueTooLarge,
    InvalidConfidence,
    InvalidNumericMinimum,
    InvalidDateRange,
}

/// The projections a filter selects, or the note that more than the cap
/// match.
#[derive(Clone, Debug, PartialEq, Eq)]
pub enum BoundedFilterSelection {
    Selected(Vec<ActiveSearchProjection>),
    TooLarge { cap: usize },
}

/// Which hydration bound was exceeded.
#[derive(Clone, Copy, Debug, PartialEq, Eq, Structural)]
pub enum SearchHitMetadataLimit {
    InputCount,
    DocumentMetadata,
    MentionsPerHit,
    TotalMentions,
    TotalStringBytes,
}

/// Why hydrating an exact hit failed.
#[derive(Clone, Copy, Debug, PartialEq, Eq, Structural)]
pub enum ExactHitHydrationFailureKind {
    Stale,
    NotFound,
    LimitExceeded(SearchHitMetadataLimit),
}

/// A failed hydration and the position of the hit it failed at, if any.
#[derive(Clone, Copy, Debug, PartialEq, Eq, Structural)]
pub struct ExactHitHydrationFailure {
    pub position: Option<usize>,
    pub kind: ExactHitHydrationFailureKind,
}

/// The number of predicates of a filter is within bounds.
pub fn check_predicate_count(count: usize) -> (r: Result<(), SearchProjectionFilterError>)
    ensures
        count <= MAX_SEARCH_FILTER_PREDICATES ==> r == Ok::<(), SearchProjectionFilterError>(()),
        count > MAX_SEARCH_FILTER_PREDICATES ==> r == Err::<(), SearchProjectionFilterError>(
            SearchProjectionFilterError::TooManyPredicates,
        ),
{
    if count > MAX_SEARCH_FILTER_PREDICATES {
        Err(SearchProjectionFilterError::TooManyPredicates)
    } else {
        Ok(())
    }
}

/// The outcome of checking the text values of a predicate: at least one, at
/// most 64, and each 1 to 4096 bytes.
pub open spec fn filter_values_outcome(values: Seq<Seq<char>>) -> Result<
    (),
    SearchProjectionFilterError,
> {
    if values.len() == 0 {
        Err(SearchProjectionFilterError::EmptyValues)
    } else if values.len() > MAX_SEARCH_FILTER_VALUES {
        Err(SearchProjectionFilterError::TooManyValues)
    } else if exists|i: int|
        0 <= i < values.len() && (encode_utf8(#[trigger] values[i]).len() == 0 || encode_utf8(
            values[i],
        ).len() > MAX_SEARCH_FILTER_VALUE_BYTES) {
        Err(SearchProjectionFilterError::ValueTooLarge)
    } else {
        Ok(())
    }
}

/// Checks the text values of a predicate.
pub fn validate_values(values: &[String]) -> (r: Result<(), SearchProjectionFilterError>)
    ensures
        r == filter_values_outcome(values@.map_values(|s: String| s@)),
{
    let ghost vs = values@.map_values(|s: String| s@);
    if values.len() == 0 {
        return Err(SearchProjectionFilterError::EmptyValues);
    }
    if values.len() > MAX_SEARCH_FILTER_VALUES {
        return Err(SearchProjectionFilterError::TooManyValues);
    }
    let mut i: usize = 0;
    while i < values.len()
        invariant
            i <= values.len(),
            1 <= values.len() <= MAX_SEARCH_FILTER_VALUES,
            vs == values@.map_values(|s: String| s@),
            forall|k: int|
                0 <= k < i ==> !(encode_utf8(#[trigger] vs[k]).len() == 0 || encode_utf8(
                    vs[k],
                ).len() > MAX_SEARCH_FILTER_VALUE_BYTES),
        decreases values.len() - i,
    {
        let n = values[i].as_str().as_bytes().len();
        if n == 0 || n > MAX_SEARCH_FILTER_VALUE_BYTES {
            proof {
                assert(encode_utf8(vs[i as int]).len() == n);
            }
            return Err(SearchProjectionFilterError::ValueTooLarge);
        }
        i += 1;
    }
    Ok(())
}

/// Checks a date range in months: it starts no earlier than January 1900
/// and ends no earlier than it starts; an open end lasts forever.
pub fn validate_date_range(start_month: i32, end_month: Option<i32>) -> (r: Result<
    (),
    SearchProjectionFilterError,
>)
    ensures
        r is Ok <==> start_month >= MIN_FILTER_MONTH && match end_month {
            Some(end) => end >= start_month,
            None => true,
        },
        r is Err ==> r == Err::<(), SearchProjectionFilterError>(
            SearchProjectionFilterError::InvalidDateRange,
        ),
{
    let end = match end_month {
        Some(e) => e,
        None => 2147483647,
    };
    if start_month < MIN_FILTER_MONTH || end < start_month {
        Err(SearchProjectionFilterError::InvalidDateRange)
    } else {
        Ok(())
    }
}

/// Checks the number of contact hashes of a predicate: at least one, at most
/// 64.
pub fn validate_contact_hash_count(count: usize) -> (r: Result<(), SearchProjectionFilterError>)
    ensures
        count == 0 ==> r == Err::<(), SearchProjectionFilterError>(
            SearchProjectionFilterError::EmptyValues,
        ),
        count > MAX_SEARCH_FILTER_VALUES ==> r == Err::<(), SearchProjectionFilterError>(
            SearchProjectionFilterError::TooManyValues,
        ),
        1 <= count <= MAX_SEARCH_FILTER_VALUES ==> r == Ok::<(), SearchProjectionFilterError>(()),
{
    if count == 0 {
        Err(SearchProjectionFilterError::EmptyValues)
    } else if count > MAX_SEARCH_FILTER_VALUES {
        Err(SearchProjectionFilterError::TooManyValues)
    } else {
        Ok(())
    }
}

/// Checks the cap of a filter selection.
pub fn check_selection_cap(cap: usize) -> (r: Result<(), MetaStoreError>)
    ensures
        cap <= MAX_BOUNDED_FILTER_SELECTION ==> r == Ok::<(), MetaStoreError>(()),
        cap > MAX_BOUNDED_FILTER_SELECTION ==> r == Err::<(), MetaStoreError>(
            MetaStoreError::InvalidValue("search_projection_filter.cap"),
        ),
{
    if cap > MAX_BOUNDED_FILTER_SELECTION {
        Err(MetaStoreError::InvalidValue("search_projection_filter.cap"))
    } else {
        Ok(())
    }
}

/// Builds the bounded selection from the rows a filter query read (at most
/// one more than the cap): every row is read as a projection, then more rows
/// than the cap mean the selection is too large.
pub fn bounded_selection_from_rows(rows: &[(String, String)], cap: usize) -> (r: Result<
    BoundedFilterSelection,
    MetaStoreError,
>)
    ensures
        match pairs_parse_error(text_pairs_view(rows@)) {
            Some(e) => r == Err::<BoundedFilterSelection, MetaStoreError>(e),
            None => if rows@.len() > cap {
                r == Ok::<BoundedFilterSelection, MetaStoreError>(
                    BoundedFilterSelection::TooLarge { cap },
                )
            } else {
                r matches Ok(BoundedFilterSelection::Selected(v)) && v@.len() == rows@.len()
                    && forall|i: int|
                    0 <= i < rows@.len() ==> (#[trigger] v@[i]).document_id@ == rows@[i].0@
                        && v@[i].resume_version_id@ == rows@[i].1@
            },
        },
{
    let ghost tp = text_pairs_view(rows@);
    let mut out: Vec<ActiveSearchProjection> = Vec::new();
    let mut i: usize = 0;
    assert(tp.skip(0) =~= tp);
    while i < rows.len()
        invariant
            i <= rows.len(),
            tp == text_pairs_view(rows@),
            out@.len() == i,
            pairs_parse_error(tp) == pairs_parse_error(tp.skip(i as int)),
            forall|k: int|
                0 <= k < i ==> (#[trigger] out@[k]).document_id@ == rows@[k].0@
                    && out@[k].resume_version_id@ == rows@[k].1@,
        decreases rows.len() - i,
    {
        assert(tp.skip(i as int).drop_first() =~= tp.skip(i + 1));
        assert(tp.skip(i as int)[0] == tp[i as int]);
        let p = projection_from_row(rows[i].0.as_str(), rows[i].1.as_str())?;
        out.push(p);
        i += 1;
    }
    assert(tp.skip(rows.len() as int) =~= Seq::<(Seq<char>, Seq<char>)>::empty());
    if out.len() > cap {
        return Ok(BoundedFilterSelection::TooLarge { cap });
    }
    Ok(BoundedFilterSelection::Selected(out))
}

/// Checks the cap and the size of an exact hit hydration request: the cap
/// must be at most 256; more hits than the cap fail with the input count.
pub fn hydration_admission(hit_count: usize, cap: usize) -> (r: Result<
    Option<ExactHitHydrationFailure>,
    MetaStoreError,
>)
    ensures
        cap > MAX_EXACT_HIT_HYDRATION ==> r == Err::<Option<ExactHitHydrationFailure>, MetaStoreError>(
            MetaStoreError::InvalidValue("search_hit_hydration.cap"),
        ),
        cap <= MAX_EXACT_HIT_HYDRATION && hit_count > cap ==> r == Ok::<
            Option<ExactHitHydrationFailure>,
            MetaStoreError,
        >(
            Some(
                ExactHitHydrationFailure {
                    position: None,
                    kind: ExactHitHydrationFailureKind::LimitExceeded(
                        SearchHitMetadataLimit::InputCount,
                    ),
                },
            ),
        ),
        cap <= MAX_EXACT_HIT_HYDRATION && hit_count <= cap ==> r == Ok::<
            Option<ExactHitHydrationFailure>,
            MetaStoreError,
        >(None),
{
    if cap > MAX_EXACT_HIT_HYDRATION {
        return Err(MetaStoreError::InvalidValue("search_hit_hydration.cap"));
    }
    if hit_count > cap {
        return Ok(
            Some(
                ExactHitHydrationFailure {
                    position: None,
                    kind: ExactHitHydrationFailureKind::LimitExceeded(
                        SearchHitMetadataLimit::InputCount,
                    ),
                },
            ),
        );
    }
    Ok(None)
}

/// Running totals of a hydration.
#[derive(Clone, Copy, Debug, PartialEq, Eq, Structural)]
pub struct HydrationTotals {
    pub mentions: usize,
    pub string_bytes: usize,
}

/// Totals after one more hit, or the bound it exceeds: first the mention
/// count, then the string bytes of the document and its mentions. A sum
/// beyond the machine word breaks a storage invariant.
pub open spec fn hydration_step(
    totals: HydrationTotals,
    mention_count: nat,
    document_bytes: nat,
    mention_bytes: nat,
) -> Result<Result<HydrationTotals, SearchHitMetadataLimit>, MetaStoreError> {
    let mentions = totals.mentions + mention_count;
    let bytes = totals.string_bytes + document_bytes + mention_bytes;
    if mentions > usize::MAX {
        Err(MetaStoreError::StorageInvariant)
    } else if mentions > MAX_HYDRATED_MENTIONS {
        Ok(Err(SearchHitMetadataLimit::TotalMentions))
    } else if bytes > usize::MAX {
        Err(MetaStoreError::StorageInvariant)
    } else if bytes > MAX_HYDRATED_STRING_BYTES {
        Ok(Err(SearchHitMetadataLimit::TotalStringBytes))
    } else {
        Ok(Ok(HydrationTotals { mentions: mentions as usize, string_bytes: bytes as usize }))
    }
}

impl HydrationTotals {
    pub fn new() -> (r: Self)
        ensures
            r.mentions == 0 && r.string_bytes == 0,
    {
        HydrationTotals { mentions: 0, string_bytes: 0 }
    }

    /// Adds one hydrated hit at `position`; a bound it exceeds fails the
    /// hydration at that position.
    pub fn add_hit(
        self,
        position: usize,
        mention_count: usize,
        document_bytes: usize,
        mention_bytes: usize,
    ) -> (r: Result<Result<HydrationTotals, ExactHitHydrationFailure>, MetaStoreError>)
        ensures
            match hydration_step(
                self,
                mention_count as nat,
                document_bytes as nat,
                mention_bytes as nat,
            ) {
                Err(e) => r == Err::<Result<HydrationTotals, ExactHitHydrationFailure>, MetaStoreError>(e),
                Ok(Ok(t)) => r == Ok::<Result<HydrationTotals, ExactHitHydrationFailure>, MetaStoreError>(Ok(t)),
                Ok(Err(limit)) => r == Ok::<Result<HydrationTotals, ExactHitHydrationFailure>, MetaStoreError>(
                    Err(
                        ExactHitHydrationFailure {
                            position: Some(position),
                            kind: ExactHitHydrationFailureKind::LimitExceeded(limit),
                        },
                    ),
                ),
            },
    {
        let mentions = match self.mentions.checked_add(mention_count) {
            Some(m) => m,
            None => return Err(MetaStoreError::StorageInvariant),
        };
        if mentions > MAX_HYDRATED_MENTIONS {
            return Ok(
                Err(
                    ExactHitHydrationFailure {
                        position: Some(position),
                        kind: ExactHitHydrationFailureKind::LimitExceeded(
                            SearchHitMetadataLimit::TotalMentions,
                        ),
                    },
                ),
            );
        }
        let with_document = match self.string_bytes.checked_add(document_bytes) {
            Some(b) => b,
            None => return Err(MetaStoreError::StorageInvariant),
        };
        let string_bytes = match with_document.checked_add(mention_bytes) {
            Some(b) => b,
            None => return Err(MetaStoreError::StorageInvariant),
        };
        if string_bytes > MAX_HYDRATED_STRING_BYTES {
            return Ok(
                Err(
                    ExactHitHydrationFailure {
                        position: Some(position),
                        kind: ExactHitHydrationFailureKind::LimitExceeded(
                            SearchHitMetadataLimit::TotalStringBytes,
                        ),
                    },
                ),
            );
        }
        Ok(Ok(HydrationTotals { mentions, string_bytes }))
    }
}

/// The failure for a hit whose selection no longer resolves.
pub fn hydration_failure(position: usize, kind: ExactHitHydrationFailureKind) -> (r:
    ExactHitHydrationFailure)
    ensures
        r == (ExactHitHydrationFailure { position: Some(position), kind }),
{
    ExactHitHydrationFailure { position: Some(position), kind }
}

} // verus!
