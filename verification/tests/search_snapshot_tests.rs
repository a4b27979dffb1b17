use meta_store::error::MetaStoreError;
use meta_store::filter::{
    bounded_selection_from_rows, check_predicate_count, check_selection_cap, hydration_admission,
    hydration_failure, validate_contact_hash_count, validate_date_range, validate_values,
    BoundedFilterSelection, ExactHitHydrationFailure, ExactHitHydrationFailureKind,
    HydrationTotals, SearchHitMetadataLimit, SearchProjectionFilterError,
    MAX_BOUNDED_FILTER_SELECTION, MAX_HYDRATED_MENTIONS, MAX_HYDRATED_STRING_BYTES,
    MIN_FILTER_MONTH,
};
use meta_store::ids::{DocumentId, ResumeVersionId};
use meta_store::selection::{resolve_selection, selection_from_future, SearchSelection, SearchSelectionResolution};
use meta_store::text_page::{
    byte_page_from_read, byte_page_query_bounds, char_count, code_point_page_from_read,
    code_point_query_bounds, SearchTextBytePageRequest, SearchTextBytePageResolution,
    SearchTextPageCursor, SearchTextPageCursorError, SearchTextPageRequest,
    SearchTextPageRequestError, SearchTextPageResolution,
};

fn selection(version: &str, epoch: u64) -> SearchSelection {
    SearchSelection {
        document_id: DocumentId::parse("doc-1").unwrap(),
        resume_version_id: ResumeVersionId::parse(version).unwrap(),
        visible_epoch: epoch,
    }
}

fn rows(pairs: &[(&str, &str)]) -> Vec<(String, String)> {
    pairs.iter().map(|(a, b)| (a.to_string(), b.to_string())).collect()
}

#[test]
fn filter_bounds_are_enforced() {
    assert_eq!(check_predicate_count(32), Ok(()));
    assert_eq!(check_predicate_count(33), Err(SearchProjectionFilterError::TooManyPredicates));
    assert_eq!(validate_values(&[]), Err(SearchProjectionFilterError::EmptyValues));
    assert_eq!(validate_values(&["rust".to_string()]), Ok(()));
    assert_eq!(
        validate_values(&vec!["x".to_string(); 65]),
        Err(SearchProjectionFilterError::TooManyValues)
    );
    assert_eq!(validate_values(&["".to_string()]), Err(SearchProjectionFilterError::ValueTooLarge));
    assert_eq!(
        validate_values(&["ok".to_string(), "x".repeat(4097)]),
        Err(SearchProjectionFilterError::ValueTooLarge)
    );
    assert_eq!(validate_values(&["x".repeat(4096)]), Ok(()));
    assert_eq!(validate_contact_hash_count(0), Err(SearchProjectionFilterError::EmptyValues));
    assert_eq!(validate_contact_hash_count(64), Ok(()));
    assert_eq!(validate_contact_hash_count(65), Err(SearchProjectionFilterError::TooManyValues));
}

#[test]
fn date_ranges_start_in_1900_and_do_not_end_before_they_start() {
    assert_eq!(MIN_FILTER_MONTH, 1900 * 12 + 1);
    assert_eq!(validate_date_range(MIN_FILTER_MONTH, None), Ok(()));
    assert_eq!(validate_date_range(MIN_FILTER_MONTH, Some(MIN_FILTER_MONTH)), Ok(()));
    assert_eq!(
        validate_date_range(MIN_FILTER_MONTH - 1, None),
        Err(SearchProjectionFilterError::InvalidDateRange)
    );
    assert_eq!(
        validate_date_range(24_000, Some(23_999)),
        Err(SearchProjectionFilterError::InvalidDateRange)
    );
}

#[test]
fn filter_selection_is_bounded_by_its_cap() {
    assert_eq!(check_selection_cap(MAX_BOUNDED_FILTER_SELECTION), Ok(()));
    assert_eq!(
        check_selection_cap(MAX_BOUNDED_FILTER_SELECTION + 1),
        Err(MetaStoreError::InvalidValue("search_projection_filter.cap"))
    );
    let found = rows(&[("doc-1", "ver-1"), ("doc-2", "ver-2")]);
    match bounded_selection_from_rows(&found, 2).unwrap() {
        BoundedFilterSelection::Selected(v) => {
            assert_eq!(v.len(), 2);
            assert_eq!(v[1].document_id.as_str(), "doc-2");
            assert_eq!(v[1].resume_version_id.as_str(), "ver-2");
        }
        other => panic!("unexpected {other:?}"),
    }
    assert_eq!(
        bounded_selection_from_rows(&found, 1),
        Ok(BoundedFilterSelection::TooLarge { cap: 1 })
    );
    assert!(bounded_selection_from_rows(&rows(&[("bad doc", "ver-1")]), 5).is_err());
}

#[test]
fn hydration_is_bounded_per_request_and_in_total() {
    assert_eq!(
        hydration_admission(1, 257),
        Err(MetaStoreError::InvalidValue("search_hit_hydration.cap"))
    );
    assert_eq!(hydration_admission(3, 3), Ok(None));
    assert_eq!(
        hydration_admission(4, 3),
        Ok(Some(ExactHitHydrationFailure {
            position: None,
            kind: ExactHitHydrationFailureKind::LimitExceeded(SearchHitMetadataLimit::InputCount),
        }))
    );
    let totals = HydrationTotals::new().add_hit(0, 10, 100, 50).unwrap().unwrap();
    assert_eq!(totals, HydrationTotals { mentions: 10, string_bytes: 150 });
    assert_eq!(
        totals.add_hit(1, MAX_HYDRATED_MENTIONS, 0, 0),
        Ok(Err(ExactHitHydrationFailure {
            position: Some(1),
            kind: ExactHitHydrationFailureKind::LimitExceeded(SearchHitMetadataLimit::TotalMentions),
        }))
    );
    assert_eq!(
        totals.add_hit(2, 0, MAX_HYDRATED_STRING_BYTES, 0),
        Ok(Err(ExactHitHydrationFailure {
            position: Some(2),
            kind: ExactHitHydrationFailureKind::LimitExceeded(
                SearchHitMetadataLimit::TotalStringBytes
            ),
        }))
    );
    assert_eq!(
        totals.add_hit(3, usize::MAX, 0, 0),
        Err(MetaStoreError::StorageInvariant)
    );
    assert_eq!(
        hydration_failure(5, ExactHitHydrationFailureKind::Stale),
        ExactHitHydrationFailure { position: Some(5), kind: ExactHitHydrationFailureKind::Stale }
    );
}

#[test]
fn selections_resolve_against_the_current_projection() {
    let s = selection("ver-1", 4);
    assert!(selection_from_future(&s, 3));
    assert!(!selection_from_future(&s, 4));
    let same = ResumeVersionId::parse("ver-1").unwrap();
    let other = ResumeVersionId::parse("ver-2").unwrap();
    assert_eq!(resolve_selection(&s, false, Some(&same)), SearchSelectionResolution::NotFound);
    assert_eq!(resolve_selection(&s, true, None), SearchSelectionResolution::NotFound);
    assert_eq!(resolve_selection(&s, true, Some(&other)), SearchSelectionResolution::Stale);
    assert_eq!(
        resolve_selection(&s, true, Some(&same)),
        SearchSelectionResolution::Current { selection: s.clone() }
    );
}

#[test]
fn cursor_tokens_round_trip() {
    for offset in [0u64, 1, 255, 4096, i64::MAX as u64] {
        let request = SearchTextPageRequest::new(selection("ver-1", 1), None, 10).unwrap();
        let start = request.cursor();
        assert_eq!(start.code_point_offset(), 0);
        let token = format!("cp1:{offset:016x}");
        let cursor = SearchTextPageCursor::from_opaque_token(&token).unwrap();
        assert_eq!(cursor.code_point_offset(), offset);
        assert_eq!(cursor.to_opaque_token(), token);
    }
    assert_eq!(SearchTextPageCursor::start().to_opaque_token(), "cp1:0000000000000000");
}

#[test]
fn malformed_cursor_tokens_are_refused() {
    for token in [
        "",
        "cp1:",
        "cp1:000000000000000",
        "cp1:00000000000000000",
        "cp2:0000000000000000",
        "cp1:000000000000000g",
        "cp1:8000000000000000",
        "cp1:ffffffffffffffff",
    ] {
        assert_eq!(
            SearchTextPageCursor::from_opaque_token(token),
            Err(SearchTextPageCursorError::Invalid),
            "{token}"
        );
    }
    assert_eq!(
        SearchTextPageCursor::from_opaque_token("cp1:00000000000000FF")
            .unwrap()
            .code_point_offset(),
        255
    );
}

#[test]
fn page_requests_check_their_limits() {
    assert_eq!(
        SearchTextBytePageRequest::new(selection("ver-1", 1), 0, 3),
        Err(SearchTextPageRequestError::InvalidLimit)
    );
    assert_eq!(
        SearchTextBytePageRequest::new(selection("ver-1", 1), 0, 32769),
        Err(SearchTextPageRequestError::InvalidLimit)
    );
    assert_eq!(
        SearchTextBytePageRequest::new(selection("ver-1", 1), u64::MAX, 4),
        Err(SearchTextPageRequestError::InvalidOffset)
    );
    let request = SearchTextBytePageRequest::new(selection("ver-1", 1), 10, 4).unwrap();
    assert_eq!((request.offset_bytes(), request.limit_bytes()), (10, 4));
    assert_eq!(byte_page_query_bounds(&request), Ok((11, 7)));
    assert!(SearchTextPageRequest::new(selection("ver-1", 1), None, 0).is_err());
    assert!(SearchTextPageRequest::new(selection("ver-1", 1), None, 8193).is_err());
    let request = SearchTextPageRequest::new(selection("ver-1", 1), None, 8192).unwrap();
    assert_eq!(code_point_query_bounds(&request), Ok((1, 8192)));
}

#[test]
fn byte_pages_end_on_character_boundaries() {
    let request = SearchTextBytePageRequest::new(selection("ver-1", 1), 0, 4).unwrap();
    let bytes = "abcé!".as_bytes().to_vec();
    match byte_page_from_read(selection("ver-1", 1), &request, 6, bytes).unwrap() {
        SearchTextBytePageResolution::Current(page) => {
            assert_eq!(page.text, "abc");
            assert_eq!(page.next_offset_bytes, 3);
            assert_eq!(page.total_bytes, 6);
        }
        other => panic!("unexpected {other:?}"),
    }
    let cut = "abcé".as_bytes()[..4].to_vec();
    match byte_page_from_read(selection("ver-1", 1), &request, 5, cut).unwrap() {
        SearchTextBytePageResolution::Current(page) => assert_eq!(page.text, "abc"),
        other => panic!("unexpected {other:?}"),
    }
    let inside = "é".as_bytes()[1..].to_vec();
    assert_eq!(
        byte_page_from_read(selection("ver-1", 1), &request, 5, inside),
        Ok(SearchTextBytePageResolution::InvalidOffset)
    );
    let far = SearchTextBytePageRequest::new(selection("ver-1", 1), 9, 4).unwrap();
    assert_eq!(
        byte_page_from_read(selection("ver-1", 1), &far, 5, Vec::new()),
        Ok(SearchTextBytePageResolution::InvalidOffset)
    );
    assert_eq!(
        byte_page_from_read(selection("ver-1", 1), &request, -1, Vec::new()),
        Err(MetaStoreError::InvalidValue("resume_version.clean_text"))
    );
}

#[test]
fn code_point_pages_continue_where_they_end() {
    let request = SearchTextPageRequest::new(selection("ver-1", 1), None, 3).unwrap();
    let first = match code_point_page_from_read(selection("ver-1", 1), &request, 5, "héllo"[..4].to_string()).unwrap() {
        SearchTextPageResolution::Current(page) => page,
        other => panic!("unexpected {other:?}"),
    };
    assert_eq!(first.text, "hél");
    assert_eq!(first.total_code_points, 5);
    let next = first.next_cursor.unwrap();
    assert_eq!(next.code_point_offset(), 3);
    let request = SearchTextPageRequest::new(selection("ver-1", 1), Some(next), 3).unwrap();
    match code_point_page_from_read(selection("ver-1", 1), &request, 5, "lo".to_string()).unwrap() {
        SearchTextPageResolution::Current(page) => {
            assert_eq!(page.text, "lo");
            assert!(page.next_cursor.is_none());
        }
        other => panic!("unexpected {other:?}"),
    }
    let beyond = SearchTextPageRequest::new(
        selection("ver-1", 1),
        Some(SearchTextPageCursor::from_opaque_token("cp1:0000000000000009").unwrap()),
        3,
    )
    .unwrap();
    assert_eq!(
        code_point_page_from_read(selection("ver-1", 1), &beyond, 5, String::new()),
        Ok(SearchTextPageResolution::InvalidOffset)
    );
    assert_eq!(char_count("héllo"), 5);
}

#[test]
fn chained_byte_pages_cover_the_text_exactly_once() {
    let text = "aé€😀bc€€é😀z".as_bytes().to_vec();
    for limit in [4u32, 5, 7] {
        let mut offset: u64 = 0;
        let mut joined: Vec<u8> = Vec::new();
        let mut pages = 0;
        while (offset as usize) < text.len() {
            let request = SearchTextBytePageRequest::new(selection("ver-1", 1), offset, limit).unwrap();
            let start = offset as usize;
            let end = (start + limit as usize + 3).min(text.len());
            let read = text[start..end].to_vec();
            let page = match byte_page_from_read(selection("ver-1", 1), &request, text.len() as i64, read).unwrap() {
                SearchTextBytePageResolution::Current(page) => page,
                other => panic!("unexpected {other:?}"),
            };
            assert!(page.next_offset_bytes > offset);
            assert!(page.text.len() <= limit as usize);
            joined.extend_from_slice(page.text.as_bytes());
            offset = page.next_offset_bytes;
            pages += 1;
            assert!(pages <= text.len());
        }
        assert_eq!(offset as usize, text.len());
        assert_eq!(joined, text);
    }
}

#[test]
fn lowercase_cursor_tokens_are_written_back_unchanged() {
    for token in ["cp1:0000000000000000", "cp1:00000000000000ff", "cp1:7fffffffffffffff"] {
        let cursor = SearchTextPageCursor::from_opaque_token(token).unwrap();
        assert_eq!(cursor.to_opaque_token(), token);
    }
    let upper = SearchTextPageCursor::from_opaque_token("cp1:00000000000000FF").unwrap();
    assert_eq!(upper.to_opaque_token(), "cp1:00000000000000ff");
}
