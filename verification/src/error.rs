use vstd::prelude::*;

verus! {

/// Why a search publication operation was refused.
#[derive(Clone, Copy, Debug, PartialEq, Eq, Structural)]
pub enum SearchPublicationFailure {
    InvalidGeneration,
    InvalidClassifierEpoch,
    InvalidDescriptor,
    DescriptorMismatch,
    InvalidState,
    InvalidPersistedState,
    ProjectionMismatch,
    InvalidProjectionTransition,
    VectorCoverageMismatch,
    ExactClassificationMissing,
    InvalidDocumentState,
}

/// Error of the metadata store. Messages name the offending column or table
/// and never carry user data.
#[derive(Clone, Copy, Debug, PartialEq, Eq)]
pub enum MetaStoreError {
    /// A storage call failed.
    Storage,
    /// Persisted state contradicts an invariant the store maintains.
    StorageInvariant,
    /// A value read or supplied is malformed; names the field.
    InvalidValue(&'static str),
    /// The requested state change is not allowed from the current state.
    InvalidTransition,
    /// The named record does not exist.
    NotFound(&'static str),
    /// A search publication rule refused the operation.
    SearchPublication(SearchPublicationFailure),
    /// The on-disk store has a schema this build does not open.
    UnsupportedStoreSchema,
    /// The data directory is not owned by a current store.
    MigrationOwnershipRequired,
}

impl MetaStoreError {
    /// The publication failure carried by this error, if any.
    pub fn search_publication_failure(&self) -> (r: Option<SearchPublicationFailure>)
        ensures
            r == (match self {
                MetaStoreError::SearchPublication(failure) => Some(*failure),
                _ => None,
            }),
    {
        match self {
            MetaStoreError::SearchPublication(failure) => Some(*failure),
            _ => None,
        }
    }
}

/// Error for a refused publication operation.
pub fn publication_error(failure: SearchPublicationFailure) -> (r: MetaStoreError)
    ensures
        r == MetaStoreError::SearchPublication(failure),
{
    MetaStoreError::SearchPublication(failure)
}

} // verus!
