use meta_store::commit_validation::{
    coverage_is_within, covered_projections, projection_map_is_exact, projects_document_exec,
    validate_commit_projection, validate_commit_shape,
};
use meta_store::contract::CLASSIFIER_EPOCH;
use meta_store::digest::ContentDigest;
use meta_store::error::{MetaStoreError, SearchPublicationFailure};
use meta_store::ids::{ActiveSearchProjection, DocumentId, ResumeVersionId, SourceRevisionId, UnixTimestamp};
use meta_store::ocr_commit::{
    first_projected_version, validate_ocr_search_publication_commit, ClaimedOcrJob,
    ClassificationFacts, IngestJobStatus, OcrJobFacts, OcrSearchPublicationCommit,
    ResumeVersionFacts, SourceRevisionFacts,
};
use meta_store::projection_digest::SearchProjectionDigest;
use meta_store::projection_transition::{
    check_projected_content, searchable_terminal_version, validate_projected_document_state,
    validate_projection_transitions, CurrentProjectionRow, ProjectedDocumentState,
};
use meta_store::publication_model::{
    DocumentStatus, FullTextSnapshotDescriptor, SearchPublicationCommit, SearchPublicationRecord,
    SearchPublicationState, TerminalDocumentUpdate, VectorSnapshotDescriptor,
};

fn p(document: &str, version: &str) -> ActiveSearchProjection {
    ActiveSearchProjection {
        document_id: DocumentId::parse(document).unwrap(),
        resume_version_id: ResumeVersionId::parse(version).unwrap(),
    }
}

fn hash() -> ContentDigest {
    ContentDigest::from_bytes(b"document")
}

fn terminal(document: &str, status: DocumentStatus, deleted: bool) -> TerminalDocumentUpdate {
    TerminalDocumentUpdate {
        document_id: DocumentId::parse(document).unwrap(),
        expected_status: DocumentStatus::Pending,
        expected_is_deleted: false,
        expected_content_hash: hash(),
        terminal_status: status,
        terminal_is_deleted: deleted,
    }
}

fn commit<'a>(
    terminals: &'a [TerminalDocumentUpdate],
    projections: &'a [ActiveSearchProjection],
    coverage: &'a [ActiveSearchProjection],
) -> SearchPublicationCommit<'a> {
    SearchPublicationCommit {
        generation: "gen-2",
        terminal_documents: terminals,
        projections,
        vector_coverage: coverage,
        now: UnixTimestamp::from_unix_seconds(5),
    }
}

fn validated(projections: &[ActiveSearchProjection], coverage: &[ActiveSearchProjection]) -> SearchPublicationRecord {
    let digest = SearchProjectionDigest::from_pairs(projections).unwrap();
    let cover = SearchProjectionDigest::from_pairs(coverage).unwrap();
    let content = ContentDigest::from_bytes(b"content");
    let n = projections.len() as u64;
    let c = coverage.len() as u64;
    SearchPublicationRecord {
        generation: "gen-2".to_string(),
        base_generation: Some("gen-1".to_string()),
        expected_visible_epoch: 1,
        classifier_epoch: CLASSIFIER_EPOCH.to_string(),
        projection_digest: digest.clone(),
        publication_fingerprint: None,
        state: SearchPublicationState::Validated,
        fulltext: Some(FullTextSnapshotDescriptor::new("gen-2".to_string(), n, digest.clone(), content.clone())),
        vector: Some(VectorSnapshotDescriptor::enabled(
            meta_store::publication_model::EnabledVectorSnapshotDescriptor {
                generation: "gen-2".to_string(),
                model_id: "model".to_string(),
                dimension: 8,
                projection_count: n,
                projection_digest: digest,
                coverage_digest: cover,
                vector_count: c,
                document_count: c,
                resume_version_count: c,
                logical_content_digest: content,
            },
        )),
        created_at: UnixTimestamp::from_unix_seconds(1),
        updated_at: UnixTimestamp::from_unix_seconds(1),
    }
}

#[test]
fn projections_map_documents_and_versions_one_to_one() {
    assert!(projection_map_is_exact(&[p("d1", "v1"), p("d2", "v2")]));
    assert!(!projection_map_is_exact(&[p("d1", "v1"), p("d1", "v2")]));
    assert!(!projection_map_is_exact(&[p("d1", "v1"), p("d2", "v1")]));
    let ps = [p("d1", "v1"), p("d2", "v2")];
    assert!(projects_document_exec(&ps, &DocumentId::parse("d2").unwrap()));
    assert!(!projects_document_exec(&ps, &DocumentId::parse("d3").unwrap()));
    assert!(coverage_is_within(&[p("d2", "v2")], &ps));
    assert!(!coverage_is_within(&[p("d2", "v1")], &ps));
    let ordered = covered_projections(&ps, &[p("d2", "v2"), p("d1", "v1")]);
    assert_eq!(ordered, vec![p("d1", "v1"), p("d2", "v2")]);
}

#[test]
fn commit_shapes_are_checked() {
    let ps = [p("d1", "v1")];
    let ok_terminals = [
        terminal("d1", DocumentStatus::Searchable, false),
        terminal("d2", DocumentStatus::Deleted, true),
        terminal("d3", DocumentStatus::Excluded, false),
    ];
    assert_eq!(validate_commit_shape(&commit(&ok_terminals, &ps, &[])), Ok(()));
    let state = Err(MetaStoreError::SearchPublication(SearchPublicationFailure::InvalidDocumentState));
    let unprojected = [terminal("d9", DocumentStatus::Searchable, false)];
    assert_eq!(validate_commit_shape(&commit(&unprojected, &ps, &[])), state);
    let twice = [
        terminal("d3", DocumentStatus::Excluded, false),
        terminal("d3", DocumentStatus::FailedPermanent, false),
    ];
    assert_eq!(validate_commit_shape(&commit(&twice, &ps, &[])), state);
    let pending = [terminal("d3", DocumentStatus::Pending, false)];
    assert_eq!(validate_commit_shape(&commit(&pending, &ps, &[])), state);
    let duplicated = [p("d1", "v1"), p("d1", "v2")];
    assert_eq!(
        validate_commit_shape(&commit(&[], &duplicated, &[])),
        Err(MetaStoreError::SearchPublication(SearchPublicationFailure::ProjectionMismatch))
    );
}

#[test]
fn commits_must_match_the_validated_descriptors() {
    let ps = [p("d1", "v1"), p("d2", "v2")];
    let coverage = [p("d2", "v2")];
    let publication = validated(&ps, &coverage);
    assert_eq!(validate_commit_projection(&commit(&[], &ps, &coverage), &publication), Ok(()));
    let mismatch = Err(MetaStoreError::SearchPublication(SearchPublicationFailure::ProjectionMismatch));
    assert_eq!(validate_commit_projection(&commit(&[], &ps[..1], &[]), &publication), mismatch);
    assert_eq!(
        validate_commit_projection(&commit(&[], &ps, &[p("d3", "v3")]), &publication),
        Err(MetaStoreError::SearchPublication(SearchPublicationFailure::VectorCoverageMismatch))
    );
    assert_eq!(
        validate_commit_projection(&commit(&[], &ps, &[p("d2", "v1")]), &publication),
        Err(MetaStoreError::SearchPublication(SearchPublicationFailure::VectorCoverageMismatch))
    );
    let mut no_descriptors = publication.clone();
    no_descriptors.fulltext = None;
    assert_eq!(
        validate_commit_projection(&commit(&[], &ps, &coverage), &no_descriptors),
        Err(MetaStoreError::SearchPublication(SearchPublicationFailure::InvalidPersistedState))
    );
}

#[test]
fn projection_transitions_follow_terminal_updates() {
    let row = |d: &str, v: &str| CurrentProjectionRow {
        document_id: d.to_string(),
        resume_version_id: v.to_string(),
        generation: "gen-1".to_string(),
    };
    let rows = [row("d1", "v1"), row("d2", "v2")];
    let target = [p("d1", "v1"), p("d2", "v3"), p("d4", "v4")];
    let terminals = [
        terminal("d2", DocumentStatus::Searchable, false),
        terminal("d4", DocumentStatus::Searchable, false),
    ];
    assert_eq!(validate_projection_transitions(&rows, &target, &terminals, Some("gen-1")), Ok(()));
    let refused = Err(MetaStoreError::SearchPublication(SearchPublicationFailure::InvalidProjectionTransition));
    assert_eq!(validate_projection_transitions(&rows, &target, &terminals[..1], Some("gen-1")), refused);
    let dropped = [p("d1", "v1")];
    assert_eq!(validate_projection_transitions(&rows, &dropped, &[], Some("gen-1")), refused);
    let settled = [terminal("d2", DocumentStatus::Excluded, false)];
    assert_eq!(validate_projection_transitions(&rows, &dropped, &settled, Some("gen-1")), Ok(()));
    assert_eq!(
        validate_projection_transitions(&rows, &target, &terminals, Some("gen-0")),
        Err(MetaStoreError::SearchPublication(SearchPublicationFailure::InvalidPersistedState))
    );
    let t = terminal("d2", DocumentStatus::Searchable, false);
    assert_eq!(searchable_terminal_version(&target, &t).unwrap().as_str(), "v3");
    let missing = terminal("d9", DocumentStatus::Searchable, false);
    assert!(searchable_terminal_version(&target, &missing).is_err());
}

#[test]
fn projected_documents_keep_their_content() {
    let expected = hash();
    assert_eq!(check_projected_content(Some(expected.as_str()), &expected), Ok(()));
    let state = Err(MetaStoreError::SearchPublication(SearchPublicationFailure::InvalidDocumentState));
    assert_eq!(check_projected_content(None, &expected), state);
    assert_eq!(check_projected_content(Some("sha256:x"), &expected), state);
    let doc = |deleted: i64, status: &str, hash: Option<&str>, retained: i64| ProjectedDocumentState {
        is_deleted: deleted,
        status: status.to_string(),
        document_hash: hash.map(str::to_string),
        revision_hash: "h1".to_string(),
        retained,
    };
    assert_eq!(validate_projected_document_state(&Some(doc(0, "searchable", Some("h1"), 0))), Ok(()));
    assert_eq!(validate_projected_document_state(&Some(doc(0, "pending", None, 1))), Ok(()));
    assert_eq!(validate_projected_document_state(&Some(doc(0, "searchable", Some("h2"), 0))), state);
    assert_eq!(validate_projected_document_state(&Some(doc(1, "searchable", Some("h1"), 1))), state);
    assert_eq!(validate_projected_document_state(&Some(doc(0, "deleted", Some("h1"), 1))), state);
    assert_eq!(validate_projected_document_state(&None), state);
}

struct OcrFixture {
    claimed: ClaimedOcrJob,
    revision: SourceRevisionFacts,
    version: ResumeVersionFacts,
    classification: ClassificationFacts,
}

fn ocr_fixture(candidate: bool) -> OcrFixture {
    let fingerprint = hash();
    OcrFixture {
        claimed: ClaimedOcrJob {
            job: OcrJobFacts {
                document_id: DocumentId::parse("d1").unwrap(),
                is_ocr_document: true,
                status: IngestJobStatus::Running,
                attempt_count: 1,
                resume_version_id: None,
            },
            source_revision_id: SourceRevisionId::parse("rev-1").unwrap(),
            source_fingerprint: fingerprint.as_str().to_string(),
        },
        revision: SourceRevisionFacts {
            id: SourceRevisionId::parse("rev-1").unwrap(),
            document_id: DocumentId::parse("d1").unwrap(),
            content_hash: fingerprint,
        },
        version: ResumeVersionFacts {
            id: ResumeVersionId::parse("v1").unwrap(),
            document_id: DocumentId::parse("d1").unwrap(),
            source_revision_id: SourceRevisionId::parse("rev-1").unwrap(),
        },
        classification: ClassificationFacts {
            resume_version_id: ResumeVersionId::parse("v1").unwrap(),
            classifier_epoch: CLASSIFIER_EPOCH.to_string(),
            is_resume_candidate: candidate,
            is_ocr_backlog: false,
        },
    }
}

fn ocr_terminal(status: DocumentStatus) -> TerminalDocumentUpdate {
    TerminalDocumentUpdate {
        document_id: DocumentId::parse("d1").unwrap(),
        expected_status: DocumentStatus::OcrRequired,
        expected_is_deleted: false,
        expected_content_hash: hash(),
        terminal_status: status,
        terminal_is_deleted: false,
    }
}

#[test]
fn ocr_publications_must_fit_their_claim() {
    let f = ocr_fixture(true);
    let terminals = [ocr_terminal(DocumentStatus::Searchable)];
    let projections = [p("d0", "v0"), p("d1", "v1")];
    let publication = OcrSearchPublicationCommit {
        search: commit(&terminals, &projections, &[]),
        claimed: &f.claimed,
        source_revision: &f.revision,
        version: &f.version,
        classification: &f.classification,
        mention_count: 3,
        has_email_hash: true,
        has_phone_hash: false,
    };
    assert_eq!(validate_ocr_search_publication_commit(&publication), Ok(()));
    let refused = Err(MetaStoreError::InvalidValue("ingest_job.ocr_search_publication"));
    let unprojected = [p("d0", "v0")];
    let missing = OcrSearchPublicationCommit { search: commit(&terminals, &unprojected, &[]), ..publication };
    assert_eq!(validate_ocr_search_publication_commit(&missing), refused);
    let excluded = [ocr_terminal(DocumentStatus::Excluded)];
    let wrong_terminal = OcrSearchPublicationCommit { search: commit(&excluded, &projections, &[]), ..publication };
    assert_eq!(validate_ocr_search_publication_commit(&wrong_terminal), refused);
    assert_eq!(
        first_projected_version(&projections, &DocumentId::parse("d1").unwrap()).map(|v| v.as_str()),
        Some("v1")
    );
}

#[test]
fn non_candidate_ocr_publications_carry_no_private_facts() {
    let f = ocr_fixture(false);
    let terminals = [ocr_terminal(DocumentStatus::Excluded)];
    let publication = OcrSearchPublicationCommit {
        search: commit(&terminals, &[], &[]),
        claimed: &f.claimed,
        source_revision: &f.revision,
        version: &f.version,
        classification: &f.classification,
        mention_count: 0,
        has_email_hash: false,
        has_phone_hash: false,
    };
    assert_eq!(validate_ocr_search_publication_commit(&publication), Ok(()));
    let refused = Err(MetaStoreError::InvalidValue("ingest_job.ocr_search_publication"));
    let with_mentions = OcrSearchPublicationCommit { mention_count: 1, ..publication };
    assert_eq!(validate_ocr_search_publication_commit(&with_mentions), refused);
    let with_hash = OcrSearchPublicationCommit { has_phone_hash: true, ..publication };
    assert_eq!(validate_ocr_search_publication_commit(&with_hash), refused);
    let mut stale = ocr_fixture(false);
    stale.claimed.job.status = IngestJobStatus::Completed;
    let stale_publication = OcrSearchPublicationCommit { claimed: &stale.claimed, ..publication };
    assert_eq!(validate_ocr_search_publication_commit(&stale_publication), refused);
}
