use vstd::prelude::*;
use vstd::utf8::*;
use crate::descriptor_records::{digest_ok, opt_string_view};
use crate::digest::ContentDigest;
use crate::error::{publication_error, MetaStoreError, SearchPublicationFailure};
use crate::ids::{valid_identifier, ImportProcessingContractId};
use crate::text::text_equal;

verus! {

/// The head an artifact repair works on: a generation, the fingerprint of
/// its publication and the visible epoch of the head.
#[derive(Clone, Debug, PartialEq, Eq)]
pub struct ArtifactRepairKey {
    generation: String,
    publication_fingerprint: ContentDigest,
    visible_epoch: u64,
}

/// Mathematical value of an artifact repair key.
pub struct RepairKeyView {
    pub generation: Seq<char>,
    pub publication_fingerprint: Seq<char>,
    pub visible_epoch: u64,
}

impl View for ArtifactRepairKey {
    type V = RepairKeyView;

    closed spec fn view(&self) -> RepairKeyView {
        RepairKeyView {
            generation: self.generation@,
            publication_fingerprint: self.publication_fingerprint@,
            visible_epoch: self.visible_epoch,
        }
    }
}

impl ArtifactRepairKey {
    pub fn new(generation: String, publication_fingerprint: ContentDigest, visible_epoch: u64) -> (r:
        Self)
        ensures
            r@ == (RepairKeyView {
                generation: generation@,
                publication_fingerprint: publication_fingerprint@,
                visible_epoch,
            }),
    {
        ArtifactRepairKey { generation, publication_fingerprint, visible_epoch }
    }

    pub fn generation(&self) -> (r: &str)
        ensures
            r@ == self@.generation,
    {
        self.generation.as_str()
    }

    pub fn publication_fingerprint(&self) -> (r: &ContentDigest)
        ensures
            r@ == self@.publication_fingerprint,
    {
        &self.publication_fingerprint
    }

    pub fn visible_epoch(&self) -> (r: u64)
        ensures
            r == self@.visible_epoch,
    {
        self.visible_epoch
    }
}

/// What entitles a publication to replace the search head.
#[derive(Clone, Debug, PartialEq, Eq)]
pub enum PublicationAuthority {
    /// The ready head it was based on.
    CurrentHead,
    /// A running migration rebuild attempt.
    MigrationRebuild {
        contract_id: ImportProcessingContractId,
        barrier_digest: ContentDigest,
        attempt_id: ContentDigest,
        attempt_count: u8,
    },
    /// A running artifact repair attempt.
    ArtifactRepair { key: ArtifactRepairKey, attempt_id: ContentDigest, attempt_count: u8 },
}

/// Mathematical value of a publication authority.
pub enum AuthorityView {
    CurrentHead,
    MigrationRebuild {
        contract_id: Seq<char>,
        barrier_digest: Seq<char>,
        attempt_id: Seq<char>,
        attempt_count: u8,
    },
    ArtifactRepair { key: RepairKeyView, attempt_id: Seq<char>, attempt_count: u8 },
}

impl View for PublicationAuthority {
    type V = AuthorityView;

    open spec fn view(&self) -> AuthorityView {
        match self {
            PublicationAuthority::CurrentHead => AuthorityView::CurrentHead,
            PublicationAuthority::MigrationRebuild {
                contract_id,
                barrier_digest,
                attempt_id,
                attempt_count,
            } => AuthorityView::MigrationRebuild {
                contract_id: contract_id@,
                barrier_digest: barrier_digest@,
                attempt_id: attempt_id@,
                attempt_count: *attempt_count,
            },
            PublicationAuthority::ArtifactRepair { key, attempt_id, attempt_count } =>
                AuthorityView::ArtifactRepair {
                key: key@,
                attempt_id: attempt_id@,
                attempt_count: *attempt_count,
            },
        }
    }
}

/// The journal columns that record an authority.
pub struct AuthorityStorage<'a> {
    pub kind: &'static str,
    pub contract_id: Option<&'a str>,
    pub barrier_digest: Option<&'a str>,
    pub repair_generation: Option<&'a str>,
    pub repair_fingerprint: Option<&'a str>,
    pub repair_visible_epoch: Option<i64>,
    pub attempt_id: Option<&'a str>,
    pub attempt_count: Option<i64>,
}

/// The view of an optional text.
pub open spec fn ov(value: Option<&str>) -> Option<Seq<char>> {
    match value {
        Some(s) => Some(s@),
        None => None,
    }
}

/// The journal columns of an authority: its kind label, and the fields of its
/// kind; every other column is NULL.
pub open spec fn storage_matches(s: AuthorityStorage, a: AuthorityView) -> bool {
    match a {
        AuthorityView::CurrentHead => {
            &&& s.kind@ == "current_head"@
            &&& s.contract_id is None && s.barrier_digest is None
            &&& s.repair_generation is None && s.repair_fingerprint is None
            &&& s.repair_visible_epoch is None
            &&& s.attempt_id is None && s.attempt_count is None
        },
        AuthorityView::MigrationRebuild { contract_id, barrier_digest, attempt_id, attempt_count } => {
            &&& s.kind@ == "migration_rebuild"@
            &&& ov(s.contract_id) == Some(contract_id)
            &&& ov(s.barrier_digest) == Some(barrier_digest)
            &&& s.repair_generation is None && s.repair_fingerprint is None
            &&& s.repair_visible_epoch is None
            &&& ov(s.attempt_id) == Some(attempt_id)
            &&& s.attempt_count == Some(attempt_count as i64)
        },
        AuthorityView::ArtifactRepair { key, attempt_id, attempt_count } => {
            &&& s.kind@ == "artifact_repair"@
            &&& s.contract_id is None && s.barrier_digest is None
            &&& ov(s.repair_generation) == Some(key.generation)
            &&& ov(s.repair_fingerprint) == Some(key.publication_fingerprint)
            &&& s.repair_visible_epoch == Some(key.visible_epoch as i64)
            &&& ov(s.attempt_id) == Some(attempt_id)
            &&& s.attempt_count == Some(attempt_count as i64)
        },
    }
}

impl PublicationAuthority {
    /// The journal columns of this authority; a repair epoch beyond the
    /// stored integer range breaks a storage invariant.
    pub fn storage(&self) -> (r: Result<AuthorityStorage<'_>, MetaStoreError>)
        ensures
            match r {
                Ok(s) => storage_matches(s, self@),
                Err(e) => self@ matches AuthorityView::ArtifactRepair { key, .. }
                    && key.visible_epoch > i64::MAX && e == MetaStoreError::StorageInvariant,
            },
    {
        match self {
            PublicationAuthority::CurrentHead => Ok(
                AuthorityStorage {
                    kind: "current_head",
                    contract_id: None,
                    barrier_digest: None,
                    repair_generation: None,
                    repair_fingerprint: None,
                    repair_visible_epoch: None,
                    attempt_id: None,
                    attempt_count: None,
                },
            ),
            PublicationAuthority::MigrationRebuild {
                contract_id,
                barrier_digest,
                attempt_id,
                attempt_count,
            } => Ok(
                AuthorityStorage {
                    kind: "migration_rebuild",
                    contract_id: Some(contract_id.as_str()),
                    barrier_digest: Some(barrier_digest.as_str()),
                    repair_generation: None,
                    repair_fingerprint: None,
                    repair_visible_epoch: None,
                    attempt_id: Some(attempt_id.as_str()),
                    attempt_count: Some(*attempt_count as i64),
                },
            ),
            PublicationAuthority::ArtifactRepair { key, attempt_id, attempt_count } => {
                let epoch = key.visible_epoch();
                if epoch > 9_223_372_036_854_775_807u64 {
                    return Err(MetaStoreError::StorageInvariant);
                }
                Ok(
                    AuthorityStorage {
                        kind: "artifact_repair",
                        contract_id: None,
                        barrier_digest: None,
                        repair_generation: Some(key.generation()),
                        repair_fingerprint: Some(key.publication_fingerprint().as_str()),
                        repair_visible_epoch: Some(epoch as i64),
                        attempt_id: Some(attempt_id.as_str()),
                        attempt_count: Some(*attempt_count as i64),
                    },
                )
            },
        }
    }
}

/// The authority columns of a journal row as stored.
#[derive(Clone, Debug, PartialEq, Eq)]
pub struct PersistedAuthorityRow {
    pub kind: String,
    pub contract_id: Option<String>,
    pub barrier_digest: Option<String>,
    pub repair_generation: Option<String>,
    pub repair_fingerprint: Option<String>,
    pub repair_visible_epoch: Option<i64>,
    pub attempt_id: Option<String>,
    pub attempt_count: Option<i64>,
}

/// A stored attempt count fits a byte.
pub open spec fn count_fits(n: i64) -> bool {
    0 <= n <= 255
}

/// The authority a stored row records, or why it cannot be read. The kind
/// label and exactly the columns of that kind must be set; otherwise the
/// row is invalid persisted state. Within a well-shaped row, a malformed
/// contract identifier is refused as that identifier is, and a malformed
/// digest, a negative epoch or an attempt count beyond a byte breaks a
/// storage invariant.
pub open spec fn authority_of_row(row: PersistedAuthorityRow) -> Result<AuthorityView, MetaStoreError> {
    if row.kind@ == "current_head"@ && row.contract_id is None && row.barrier_digest is None
        && row.repair_generation is None && row.repair_fingerprint is None
        && row.repair_visible_epoch is None && row.attempt_id is None && row.attempt_count
        is None {
        Ok(AuthorityView::CurrentHead)
    } else if row.kind@ == "migration_rebuild"@ && row.contract_id is Some
        && row.barrier_digest is Some && row.repair_generation is None
        && row.repair_fingerprint is None && row.repair_visible_epoch is None
        && row.attempt_id is Some && row.attempt_count is Some {
        let contract = row.contract_id.unwrap()@;
        let barrier = row.barrier_digest.unwrap()@;
        let attempt = row.attempt_id.unwrap()@;
        let count = row.attempt_count.unwrap();
        if !valid_identifier(contract) {
            Err(MetaStoreError::InvalidValue("identifier"))
        } else if !digest_ok(barrier) || !digest_ok(attempt) || !count_fits(count) {
            Err(MetaStoreError::StorageInvariant)
        } else {
            Ok(
                AuthorityView::MigrationRebuild {
                    contract_id: contract,
                    barrier_digest: barrier,
                    attempt_id: attempt,
                    attempt_count: count as u8,
                },
            )
        }
    } else if row.kind@ == "artifact_repair"@ && row.contract_id is None
        && row.barrier_digest is None && row.repair_generation is Some
        && row.repair_fingerprint is Some && row.repair_visible_epoch is Some
        && row.attempt_id is Some && row.attempt_count is Some {
        let fingerprint = row.repair_fingerprint.unwrap()@;
        let epoch = row.repair_visible_epoch.unwrap();
        let attempt = row.attempt_id.unwrap()@;
        let count = row.attempt_count.unwrap();
        if !digest_ok(fingerprint) || epoch < 0 || !digest_ok(attempt) || !count_fits(count) {
            Err(MetaStoreError::StorageInvariant)
        } else {
            Ok(
                AuthorityView::ArtifactRepair {
                    key: RepairKeyView {
                        generation: row.repair_generation.unwrap()@,
                        publication_fingerprint: fingerprint,
                        visible_epoch: epoch as u64,
                    },
                    attempt_id: attempt,
                    attempt_count: count as u8,
                },
            )
        }
    } else {
        Err(MetaStoreError::SearchPublication(SearchPublicationFailure::InvalidPersistedState))
    }
}

/// Parses stored digest text; malformed text breaks a storage invariant.
pub fn parse_digest(value: &str) -> (r: Result<ContentDigest, MetaStoreError>)
    ensures
        match r {
            Ok(d) => digest_ok(value@) && d@ == value@,
            Err(e) => !digest_ok(value@) && e == MetaStoreError::StorageInvariant,
        },
{
    match ContentDigest::parse(value) {
        Some(d) => Ok(d),
        None => Err(MetaStoreError::StorageInvariant),
    }
}

/// Converts a stored attempt count; a count beyond a byte breaks a storage
/// invariant.
pub fn attempt_count_from(value: i64) -> (r: Result<u8, MetaStoreError>)
    ensures
        count_fits(value) ==> r == Ok::<u8, MetaStoreError>(value as u8),
        !count_fits(value) ==> r == Err::<u8, MetaStoreError>(MetaStoreError::StorageInvariant),
{
    if 0 <= value && value <= 255 {
        Ok(value as u8)
    } else {
        Err(MetaStoreError::StorageInvariant)
    }
}

/// Reads the authority recorded in a journal row.
pub fn parse_authority(row: PersistedAuthorityRow) -> (r: Result<
    PublicationAuthority,
    MetaStoreError,
>)
    ensures
        match r {
            Ok(a) => authority_of_row(row) == Ok::<AuthorityView, MetaStoreError>(a@),
            Err(e) => authority_of_row(row) == Err::<AuthorityView, MetaStoreError>(e),
        },
{
    proof {
        reveal_strlit("current_head");
        reveal_strlit("migration_rebuild");
        reveal_strlit("artifact_repair");
    }
    let kind = row.kind.as_str();
    if text_equal(kind, "current_head") && row.contract_id.is_none() && row.barrier_digest.is_none()
        && row.repair_generation.is_none() && row.repair_fingerprint.is_none()
        && row.repair_visible_epoch.is_none() && row.attempt_id.is_none()
        && row.attempt_count.is_none() {
        return Ok(PublicationAuthority::CurrentHead);
    }
    if text_equal(kind, "migration_rebuild") {
        if let (Some(contract), Some(barrier), None, None, None, Some(attempt), Some(count)) = (
            &row.contract_id,
            &row.barrier_digest,
            &row.repair_generation,
            &row.repair_fingerprint,
            row.repair_visible_epoch,
            &row.attempt_id,
            row.attempt_count,
        ) {
            let contract_id = ImportProcessingContractId::parse(contract.as_str())?;
            let barrier_digest = parse_digest(barrier.as_str())?;
            let attempt_id = parse_digest(attempt.as_str())?;
            let attempt_count = attempt_count_from(count)?;
            return Ok(
                PublicationAuthority::MigrationRebuild {
                    contract_id,
                    barrier_digest,
                    attempt_id,
                    attempt_count,
                },
            );
        }
    }
    if text_equal(kind, "artifact_repair") {
        if let (None, None, Some(generation), Some(fingerprint), Some(epoch), Some(attempt), Some(
            count,
        )) = (
            &row.contract_id,
            &row.barrier_digest,
            &row.repair_generation,
            &row.repair_fingerprint,
            row.repair_visible_epoch,
            &row.attempt_id,
            row.attempt_count,
        ) {
            let publication_fingerprint = parse_digest(fingerprint.as_str())?;
            if epoch < 0 {
                return Err(MetaStoreError::StorageInvariant);
            }
            let key = ArtifactRepairKey::new(
                generation.clone(),
                publication_fingerprint,
                epoch as u64,
            );
            let attempt_id = parse_digest(attempt.as_str())?;
            let attempt_count = attempt_count_from(count)?;
            return Ok(PublicationAuthority::ArtifactRepair { key, attempt_id, attempt_count });
        }
    }
    Err(publication_error(SearchPublicationFailure::InvalidPersistedState))
}

/// Whether a stored row holds exactly the journal columns of a storage
/// record.
pub open spec fn row_records(row: PersistedAuthorityRow, s: AuthorityStorage) -> bool {
    &&& row.kind@ == s.kind@
    &&& opt_string_view(row.contract_id) == ov(s.contract_id)
    &&& opt_string_view(row.barrier_digest) == ov(s.barrier_digest)
    &&& opt_string_view(row.repair_generation) == ov(s.repair_generation)
    &&& opt_string_view(row.repair_fingerprint) == ov(s.repair_fingerprint)
    &&& row.repair_visible_epoch == s.repair_visible_epoch
    &&& opt_string_view(row.attempt_id) == ov(s.attempt_id)
    &&& row.attempt_count == s.attempt_count
}

/// The identifiers and digests of an authority are well formed and its
/// repair epoch fits a stored integer, as for every authority read from the
/// store.
pub open spec fn authority_fields_valid(a: AuthorityView) -> bool {
    match a {
        AuthorityView::CurrentHead => true,
        AuthorityView::MigrationRebuild { contract_id, barrier_digest, attempt_id, .. } => {
            &&& valid_identifier(contract_id)
            &&& digest_ok(barrier_digest)
            &&& digest_ok(attempt_id)
        },
        AuthorityView::ArtifactRepair { key, attempt_id, .. } => {
            &&& digest_ok(key.publication_fingerprint)
            &&& digest_ok(attempt_id)
            &&& key.visible_epoch <= i64::MAX
        },
    }
}

/// Reading back the journal columns written for an authority gives the
/// same authority.
pub proof fn stored_authority_reads_back(
    a: AuthorityView,
    s: AuthorityStorage,
    row: PersistedAuthorityRow,
)
    requires
        authority_fields_valid(a),
        storage_matches(s, a),
        row_records(row, s),
    ensures
        authority_of_row(row) == Ok::<AuthorityView, MetaStoreError>(a),
{
    reveal_strlit("current_head");
    reveal_strlit("migration_rebuild");
    reveal_strlit("artifact_repair");
    assert("current_head"@.len() == 12 && "migration_rebuild"@.len() == 17
        && "artifact_repair"@.len() == 15);
    match a {
        AuthorityView::CurrentHead => {},
        AuthorityView::MigrationRebuild { contract_id, barrier_digest, attempt_id, attempt_count } => {
            assert(row.contract_id.unwrap()@ == contract_id);
            assert(row.barrier_digest.unwrap()@ == barrier_digest);
            assert(row.attempt_id.unwrap()@ == attempt_id);
            assert((attempt_count as i64) as u8 == attempt_count);
        },
        AuthorityView::ArtifactRepair { key, attempt_id, attempt_count } => {
            assert(row.repair_generation.unwrap()@ == key.generation);
            assert(row.repair_fingerprint.unwrap()@ == key.publication_fingerprint);
            assert(row.attempt_id.unwrap()@ == attempt_id);
            assert((attempt_count as i64) as u8 == attempt_count);
        },
    }
}

/// Which authority a new publication may claim, before the store is asked
/// about running attempts.
#[derive(Clone, Copy, Debug, PartialEq, Eq, Structural)]
pub enum BeginAuthorityRoute {
    /// The head moved or is in no state a publication may replace.
    NoAuthority,
    /// The ready head it is based on.
    CurrentHead,
    /// A running migration rebuild, if one is recorded.
    RunningMigration,
    /// A running artifact repair of the head, if one is recorded.
    RunningArtifact,
}

/// The stored form of a draft's expected epoch; one beyond the stored
/// integer range is an invalid descriptor.
pub fn begin_expected_epoch(expected_visible_epoch: u64) -> (r: Result<i64, MetaStoreError>)
    ensures
        expected_visible_epoch <= i64::MAX ==> r == Ok::<i64, MetaStoreError>(
            expected_visible_epoch as i64,
        ),
        expected_visible_epoch > i64::MAX ==> r == Err::<i64, MetaStoreError>(
            MetaStoreError::SearchPublication(SearchPublicationFailure::InvalidDescriptor),
        ),
{
    if expected_visible_epoch <= 9_223_372_036_854_775_807u64 {
        Ok(expected_visible_epoch as i64)
    } else {
        Err(publication_error(SearchPublicationFailure::InvalidDescriptor))
    }
}

/// The route of a new publication: the head must still have the draft's
/// base generation and expected epoch; a ready head without repair is its
/// own authority, a head under migration rebuild (with no generation) or
/// under artifact repair (with one) may be replaced by the running attempt.
pub open spec fn begin_route(
    service_state: Seq<char>,
    head_generation: Option<Seq<char>>,
    head_visible_epoch: i64,
    repair_reason: Option<Seq<char>>,
    base_generation: Option<Seq<char>>,
    expected_epoch: i64,
) -> BeginAuthorityRoute {
    if head_generation != base_generation || head_visible_epoch != expected_epoch {
        BeginAuthorityRoute::NoAuthority
    } else if service_state == "ready"@ && repair_reason is None && head_generation is Some {
        BeginAuthorityRoute::CurrentHead
    } else if service_state == "repairing"@ && repair_reason == Some("migration_rebuild"@)
        && head_generation is None {
        BeginAuthorityRoute::RunningMigration
    } else if service_state == "repairing"@ && repair_reason == Some("artifact_unavailable"@)
        && head_generation is Some {
        BeginAuthorityRoute::RunningArtifact
    } else {
        BeginAuthorityRoute::NoAuthority
    }
}

/// Which authority a draft may claim follows the head exactly: none unless
/// the head is the one the draft was based on; the head itself only when it
/// is ready without repair; a running migration rebuild only while the head
/// is repairing under it with no generation; a running artifact repair only
/// while the head is repairing for an unavailable artifact; and none for a
/// head in any other service state, such as a blocked one.
pub proof fn begin_route_follows_the_head(
    service_state: Seq<char>,
    head_generation: Option<Seq<char>>,
    head_visible_epoch: i64,
    repair_reason: Option<Seq<char>>,
    base_generation: Option<Seq<char>>,
    expected_epoch: i64,
)
    ensures
        ({
            let r = begin_route(
                service_state,
                head_generation,
                head_visible_epoch,
                repair_reason,
                base_generation,
                expected_epoch,
            );
            &&& r != BeginAuthorityRoute::NoAuthority ==> head_generation == base_generation
                && head_visible_epoch == expected_epoch
            &&& r == BeginAuthorityRoute::CurrentHead ==> service_state == "ready"@
                && repair_reason is None && head_generation is Some
            &&& r == BeginAuthorityRoute::RunningMigration ==> service_state == "repairing"@
                && repair_reason == Some("migration_rebuild"@) && head_generation is None
            &&& r == BeginAuthorityRoute::RunningArtifact ==> service_state == "repairing"@
                && repair_reason == Some("artifact_unavailable"@) && head_generation is Some
            &&& service_state != "ready"@ && service_state != "repairing"@ ==> r
                == BeginAuthorityRoute::NoAuthority
        }),
{
}

fn opt_text_equal(a: Option<&str>, b: Option<&str>) -> (r: bool)
    ensures
        r == (ov(a) == ov(b)),
{
    match (a, b) {
        (Some(x), Some(y)) => text_equal(x, y),
        (None, None) => true,
        _ => false,
    }
}

fn opt_text_is(value: Option<&str>, expected: &str) -> (r: bool)
    ensures
        r == (ov(value) == Some(expected@)),
{
    match value {
        Some(v) => text_equal(v, expected),
        None => false,
    }
}

/// Decides which authority a new publication may claim from the stored
/// search head.
pub fn begin_authority_route(
    service_state: &str,
    head_generation: Option<&str>,
    head_visible_epoch: i64,
    repair_reason: Option<&str>,
    base_generation: Option<&str>,
    expected_epoch: i64,
) -> (r: BeginAuthorityRoute)
    ensures
        r == begin_route(
            service_state@,
            ov(head_generation),
            head_visible_epoch,
            ov(repair_reason),
            ov(base_generation),
            expected_epoch,
        ),
        r != BeginAuthorityRoute::NoAuthority ==> ov(head_generation) == ov(base_generation)
            && head_visible_epoch == expected_epoch,
        r == BeginAuthorityRoute::CurrentHead ==> service_state@ == "ready"@ && repair_reason is None
            && head_generation is Some,
        r == BeginAuthorityRoute::RunningMigration ==> service_state@ == "repairing"@ && ov(
            repair_reason,
        ) == Some("migration_rebuild"@) && head_generation is None,
        r == BeginAuthorityRoute::RunningArtifact ==> service_state@ == "repairing"@ && ov(
            repair_reason,
        ) == Some("artifact_unavailable"@) && head_generation is Some,
        service_state@ != "ready"@ && service_state@ != "repairing"@ ==> r
            == BeginAuthorityRoute::NoAuthority,
{
    proof {
        begin_route_follows_the_head(
            service_state@,
            ov(head_generation),
            head_visible_epoch,
            ov(repair_reason),
            ov(base_generation),
            expected_epoch,
        );
    }
    if !opt_text_equal(head_generation, base_generation) || head_visible_epoch != expected_epoch {
        return BeginAuthorityRoute::NoAuthority;
    }
    if text_equal(service_state, "ready") && repair_reason.is_none() && head_generation.is_some() {
        BeginAuthorityRoute::CurrentHead
    } else if text_equal(service_state, "repairing") && opt_text_is(
        repair_reason,
        "migration_rebuild",
    ) && head_generation.is_none() {
        BeginAuthorityRoute::RunningMigration
    } else if text_equal(service_state, "repairing") && opt_text_is(
        repair_reason,
        "artifact_unavailable",
    ) && head_generation.is_some() {
        BeginAuthorityRoute::RunningArtifact
    } else {
        BeginAuthorityRoute::NoAuthority
    }
}

/// Parses the contract and barrier of a running migration attempt, before
/// the barrier is checked against the store.
pub fn migration_barrier_parts(contract_id: &str, barrier_digest: &str) -> (r: Result<
    (ImportProcessingContractId, ContentDigest),
    MetaStoreError,
>)
    ensures
        match r {
            Ok((c, b)) => valid_identifier(contract_id@) && digest_ok(barrier_digest@) && c@
                == contract_id@ && b@ == barrier_digest@,
            Err(e) => if !valid_identifier(contract_id@) {
                e == MetaStoreError::InvalidValue("identifier")
            } else {
                !digest_ok(barrier_digest@) && e == MetaStoreError::StorageInvariant
            },
        },
{
    let contract = ImportProcessingContractId::parse(contract_id)?;
    let barrier = parse_digest(barrier_digest)?;
    Ok((contract, barrier))
}

/// The authority of a running migration attempt whose barrier still holds.
pub fn migration_authority(
    contract_id: ImportProcessingContractId,
    barrier_digest: ContentDigest,
    attempt_id: &str,
    attempt_count: i64,
) -> (r: Result<PublicationAuthority, MetaStoreError>)
    ensures
        match r {
            Ok(a) => digest_ok(attempt_id@) && count_fits(attempt_count) && a@
                == (AuthorityView::MigrationRebuild {
                contract_id: contract_id@,
                barrier_digest: barrier_digest@,
                attempt_id: attempt_id@,
                attempt_count: attempt_count as u8,
            }),
            Err(e) => !(digest_ok(attempt_id@) && count_fits(attempt_count)) && e
                == MetaStoreError::StorageInvariant,
        },
{
    let attempt = parse_digest(attempt_id)?;
    let count = attempt_count_from(attempt_count)?;
    Ok(
        PublicationAuthority::MigrationRebuild {
            contract_id,
            barrier_digest,
            attempt_id: attempt,
            attempt_count: count,
        },
    )
}

/// The authority of a running artifact repair attempt read from the store.
pub fn artifact_authority(
    generation: String,
    publication_fingerprint: &str,
    visible_epoch: i64,
    attempt_id: &str,
    attempt_count: i64,
) -> (r: Result<PublicationAuthority, MetaStoreError>)
    ensures
        match r {
            Ok(a) => digest_ok(publication_fingerprint@) && visible_epoch >= 0 && digest_ok(
                attempt_id@,
            ) && count_fits(attempt_count) && a@ == (AuthorityView::ArtifactRepair {
                key: RepairKeyView {
                    generation: generation@,
                    publication_fingerprint: publication_fingerprint@,
                    visible_epoch: visible_epoch as u64,
                },
                attempt_id: attempt_id@,
                attempt_count: attempt_count as u8,
            }),
            Err(e) => !(digest_ok(publication_fingerprint@) && visible_epoch >= 0 && digest_ok(
                attempt_id@,
            ) && count_fits(attempt_count)) && e == MetaStoreError::StorageInvariant,
        },
{
    let fingerprint = parse_digest(publication_fingerprint)?;
    if visible_epoch < 0 {
        return Err(MetaStoreError::StorageInvariant);
    }
    let key = ArtifactRepairKey::new(generation, fingerprint, visible_epoch as u64);
    let attempt = parse_digest(attempt_id)?;
    let count = attempt_count_from(attempt_count)?;
    Ok(PublicationAuthority::ArtifactRepair { key, attempt_id: attempt, attempt_count: count })
}

/// What confirms that a publication may still commit.
#[derive(Clone, Copy, Debug, PartialEq, Eq, Structural)]
pub enum CommitAuthorityCheck {
    /// Nothing can: the publication may not commit.
    Refuse,
    /// The head must still be ready without repair.
    CurrentReadyHead,
    /// The barrier token must still match and the attempt still run.
    MigrationAttempt,
    /// The repair attempt must still run against its head.
    ArtifactAttempt,
}

/// The check a commit needs: a current-head publication commits without a
/// migration barrier, a migration rebuild only with the barrier it recorded,
/// an artifact repair without a barrier; anything else is refused.
pub open spec fn commit_check(authority: Option<AuthorityView>, barrier_identity: Option<Seq<char>>) -> CommitAuthorityCheck {
    match authority {
        None => CommitAuthorityCheck::Refuse,
        Some(AuthorityView::CurrentHead) => if barrier_identity is None {
            CommitAuthorityCheck::CurrentReadyHead
        } else {
            CommitAuthorityCheck::Refuse
        },
        Some(AuthorityView::MigrationRebuild { barrier_digest, .. }) => match barrier_identity {
            Some(b) => if b == barrier_digest {
                CommitAuthorityCheck::MigrationAttempt
            } else {
                CommitAuthorityCheck::Refuse
            },
            None => CommitAuthorityCheck::Refuse,
        },
        Some(AuthorityView::ArtifactRepair { .. }) => if barrier_identity is None {
            CommitAuthorityCheck::ArtifactAttempt
        } else {
            CommitAuthorityCheck::Refuse
        },
    }
}

/// Decides which check confirms a commit under the recorded authority and
/// the identity digest of the migration barrier the caller holds, if any.
pub fn commit_authority_check(
    authority: Option<&PublicationAuthority>,
    barrier_identity: Option<&ContentDigest>,
) -> (r: CommitAuthorityCheck)
    ensures
        r == commit_check(
            match authority {
                Some(a) => Some(a@),
                None => None,
            },
            match barrier_identity {
                Some(b) => Some(b@),
                None => None,
            },
        ),
{
    match (authority, barrier_identity) {
        (Some(PublicationAuthority::CurrentHead), None) => CommitAuthorityCheck::CurrentReadyHead,
        (Some(PublicationAuthority::MigrationRebuild { barrier_digest, .. }), Some(b)) => {
            if b.same_as(barrier_digest) {
                CommitAuthorityCheck::MigrationAttempt
            } else {
                CommitAuthorityCheck::Refuse
            }
        },
        (Some(PublicationAuthority::ArtifactRepair { .. }), None) =>
            CommitAuthorityCheck::ArtifactAttempt,
        _ => CommitAuthorityCheck::Refuse,
    }
}

} // verus!
