use vstd::prelude::*;
use crate::descriptor_records::{opt_string_view, DescriptorContract, PublicationDescriptorRecord};
use crate::error::MetaStoreError;
use crate::text::text_equal;

verus! {

/// States an active search head may be in while the descriptor contract is
/// migrated: ready, repairing an unavailable artifact, or blocked for a
/// runtime invariant.
pub open spec fn active_head_state_ok(service_state: Seq<char>, repair_reason: Option<Seq<char>>) -> bool {
    ||| service_state == "ready"@ && repair_reason is None
    ||| repair_head_state(service_state, repair_reason)
}

/// The two repair states of an active head.
pub open spec fn repair_head_state(service_state: Seq<char>, repair_reason: Option<Seq<char>>) -> bool {
    ||| service_state == "repairing"@ && repair_reason == Some("artifact_unavailable"@)
    ||| service_state == "repair_blocked"@ && repair_reason == Some("runtime_invariant"@)
}

/// The row of the repair context recorded for an active head whose
/// artifacts must be rebuilt.
#[derive(Clone, Debug, PartialEq, Eq)]
pub struct RepairContextRow {
    pub generation: String,
    pub publication_fingerprint: String,
    pub visible_epoch: i64,
    pub classifier_epoch: String,
    pub projection_digest: String,
    pub projection_count: i64,
    pub vector_mode: Option<String>,
    pub vector_model_id: Option<String>,
    pub vector_dimension: Option<i64>,
}

/// What migrating the descriptor contract does with the active head.
#[derive(Clone, Debug, PartialEq, Eq)]
pub struct ActiveHeadPlan {
    /// The document count the head's active projection must hold.
    pub expected_documents: u64,
    /// The repair context to record, if the head must be repaired.
    pub repair_context: Option<RepairContextRow>,
    /// Whether a ready head moves to repairing an unavailable artifact.
    pub demote_ready_head: bool,
}

/// The active head is consistent with the publication it names: an allowed
/// state, a ready publication whose epoch is one before the head's, and
/// recorded descriptors with a document count.
pub open spec fn active_head_ok(
    service_state: Seq<char>,
    repair_reason: Option<Seq<char>>,
    head_epoch: i64,
    p: PublicationDescriptorRecord,
) -> bool {
    &&& active_head_state_ok(service_state, repair_reason)
    &&& p.state@ == "ready"@
    &&& head_epoch >= 0
    &&& p.expected_visible_epoch + 1 == head_epoch
    &&& p.contract != DescriptorContract::Empty
    &&& p.fulltext_document_count is Some
}

/// Whether the plan for a consistent head records a repair context: a legacy
/// publication must be rebuilt, and a head already under repair keeps its
/// context. The context needs the publication's fingerprint and a count that
/// fits a stored integer.
pub open spec fn needs_repair_context(
    service_state: Seq<char>,
    repair_reason: Option<Seq<char>>,
    p: PublicationDescriptorRecord,
) -> bool {
    p.contract == DescriptorContract::Legacy || repair_head_state(service_state, repair_reason)
}

/// The repair context of a publication under a head epoch, as recorded.
pub open spec fn repair_context_matches(
    c: RepairContextRow,
    p: PublicationDescriptorRecord,
    head_epoch: i64,
) -> bool {
    &&& c.generation@ == p.generation@
    &&& p.publication_fingerprint matches Some(f) && c.publication_fingerprint@ == f@
    &&& c.visible_epoch == head_epoch
    &&& c.classifier_epoch@ == p.classifier_epoch@
    &&& c.projection_digest@ == p.projection_digest@
    &&& c.projection_count == p.fulltext_document_count.unwrap()
    &&& opt_string_view(c.vector_mode) == opt_string_view(p.vector_mode)
    &&& opt_string_view(c.vector_model_id) == opt_string_view(p.vector_model_id)
    &&& c.vector_dimension == match p.vector_dimension {
        Some(d) => Some(d as i64),
        None => None,
    }
}

fn opt_is(value: Option<&str>, expected: &str) -> (r: bool)
    ensures
        r == (match value {
            Some(v) => Some(v@),
            None => None,
        } == Some(expected@)),
{
    match value {
        Some(v) => text_equal(v, expected),
        None => false,
    }
}

fn is_repair_state(service_state: &str, repair_reason: Option<&str>) -> (r: bool)
    ensures
        r == repair_head_state(
            service_state@,
            match repair_reason {
                Some(v) => Some(v@),
                None => None,
            },
        ),
{
    (text_equal(service_state, "repairing") && opt_is(repair_reason, "artifact_unavailable")) || (
    text_equal(service_state, "repair_blocked") && opt_is(repair_reason, "runtime_invariant"))
}

/// Plans the contract migration of the active head from its stored state
/// and the descriptor record of the publication it names. Any inconsistency
/// breaks a storage invariant.
pub fn plan_active_head(
    service_state: &str,
    repair_reason: Option<&str>,
    head_epoch: i64,
    publication: &PublicationDescriptorRecord,
) -> (r: Result<ActiveHeadPlan, MetaStoreError>)
    ensures
        ({
            let reason = match repair_reason {
                Some(v) => Some(v@),
                None => None,
            };
            let ok = active_head_ok(service_state@, reason, head_epoch, *publication);
            let repair = needs_repair_context(service_state@, reason, *publication);
            let context_ok = publication.publication_fingerprint is Some
                && publication.fulltext_document_count.unwrap() <= i64::MAX;
            match r {
                Ok(plan) => {
                    &&& ok
                    &&& (repair ==> context_ok)
                    &&& plan.expected_documents == publication.fulltext_document_count.unwrap()
                    &&& (plan.repair_context is Some) == repair
                    &&& (plan.repair_context matches Some(c) ==> repair_context_matches(
                        c,
                        *publication,
                        head_epoch,
                    ))
                    &&& plan.demote_ready_head == (publication.contract == DescriptorContract::Legacy
                        && service_state@ == "ready"@)
                },
                Err(e) => e == MetaStoreError::StorageInvariant && !(ok && (repair ==> context_ok)),
            }
        }),
{
    let ready = text_equal(service_state, "ready");
    let repair_state = is_repair_state(service_state, repair_reason);
    let state_ok = (ready && repair_reason.is_none()) || repair_state;
    if !state_ok || !text_equal(publication.state.as_str(), "ready") || head_epoch < 0 {
        return Err(MetaStoreError::StorageInvariant);
    }
    match publication.expected_visible_epoch.checked_add(1) {
        Some(n) => if n != head_epoch as u64 {
            return Err(MetaStoreError::StorageInvariant);
        },
        None => return Err(MetaStoreError::StorageInvariant),
    }
    let expected_documents = match publication.contract {
        DescriptorContract::Empty => return Err(MetaStoreError::StorageInvariant),
        _ => match publication.fulltext_document_count {
            Some(n) => n,
            None => return Err(MetaStoreError::StorageInvariant),
        },
    };
    let legacy = match publication.contract {
        DescriptorContract::Legacy => true,
        _ => false,
    };
    let repair_context = if legacy || repair_state {
        let fingerprint = match &publication.publication_fingerprint {
            Some(f) => f.as_str().to_string(),
            None => return Err(MetaStoreError::StorageInvariant),
        };
        if expected_documents > 9_223_372_036_854_775_807u64 {
            return Err(MetaStoreError::StorageInvariant);
        }
        Some(
            RepairContextRow {
                generation: publication.generation.clone(),
                publication_fingerprint: fingerprint,
                visible_epoch: head_epoch,
                classifier_epoch: publication.classifier_epoch.clone(),
                projection_digest: publication.projection_digest.as_str().to_string(),
                projection_count: expected_documents as i64,
                vector_mode: publication.vector_mode.clone(),
                vector_model_id: publication.vector_model_id.clone(),
                vector_dimension: match publication.vector_dimension {
                    Some(d) => Some(d as i64),
                    None => None,
                },
            },
        )
    } else {
        None
    };
    Ok(ActiveHeadPlan { expected_documents, repair_context, demote_ready_head: legacy && ready })
}

/// Finds the descriptor record of the head's generation; a head without
/// its publication breaks a storage invariant.
pub fn find_head_publication<'a>(records: &'a [PublicationDescriptorRecord], generation: &str) -> (r:
    Result<&'a PublicationDescriptorRecord, MetaStoreError>)
    ensures
        match r {
            Ok(p) => exists|i: int|
                0 <= i < records@.len() && records@[i] == *p && p.generation@ == generation@
                    && forall|j: int| 0 <= j < i ==> records@[j].generation@ != generation@,
            Err(e) => e == MetaStoreError::StorageInvariant && forall|i: int|
                0 <= i < records@.len() ==> records@[i].generation@ != generation@,
        },
{
    let mut i: usize = 0;
    while i < records.len()
        invariant
            i <= records.len(),
            forall|j: int| 0 <= j < i ==> records@[j].generation@ != generation@,
        decreases records.len() - i,
    {
        if text_equal(records[i].generation.as_str(), generation) {
            return Ok(&records[i]);
        }
        i += 1;
    }
    Err(MetaStoreError::StorageInvariant)
}

} // verus!
