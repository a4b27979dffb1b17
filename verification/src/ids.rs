use vstd::prelude::*;
use crate::error::MetaStoreError;

verus! {

/// Longest accepted identifier, in bytes.
pub const MAX_IDENTIFIER_BYTES: usize = 128;

/// Whether every byte is printable, non-space ASCII.
pub open spec fn graphic_ascii(bytes: Seq<u8>) -> bool {
    forall|i: int| 0 <= i < bytes.len() ==> 0x21 <= #[trigger] bytes[i] <= 0x7e
}

/// Stored identifiers are 1 to `MAX_IDENTIFIER_BYTES` bytes of printable,
/// non-space ASCII.
pub open spec fn valid_identifier(text: Seq<char>) -> bool {
    let bytes = vstd::utf8::encode_utf8(text);
    &&& 0 < bytes.len() <= MAX_IDENTIFIER_BYTES
    &&& graphic_ascii(bytes)
}

/// Checks the identifier format.
pub fn is_valid_identifier(text: &str) -> (r: bool)
    ensures
        r == valid_identifier(text@),
{
    let bytes = text.as_bytes();
    if bytes.len() == 0 || bytes.len() > MAX_IDENTIFIER_BYTES {
        return false;
    }
    let mut i: usize = 0;
    while i < bytes.len()
        invariant
            i <= bytes.len(),
            bytes@ == vstd::utf8::encode_utf8(text@),
            forall|j: int| 0 <= j < i ==> 0x21 <= #[trigger] bytes@[j] <= 0x7e,
        decreases bytes.len() - i,
    {
        let b = bytes[i];
        if b < 0x21 || b > 0x7e {
            return false;
        }
        i += 1;
    }
    true
}

/// Seconds since the Unix epoch.
#[derive(Clone, Copy, Debug, PartialEq, Eq, PartialOrd, Ord, Hash, Structural)]
pub struct UnixTimestamp {
    pub seconds: i64,
}

impl UnixTimestamp {
    pub fn from_unix_seconds(seconds: i64) -> (r: Self)
        ensures
            r.seconds == seconds,
    {
        UnixTimestamp { seconds }
    }

    pub fn as_unix_seconds(&self) -> (r: i64)
        ensures
            r == self.seconds,
    {
        self.seconds
    }

    /// The later of two instants, as the store's `MAX(old, new)` updates keep
    /// timestamps monotone.
    pub fn latest(self, other: Self) -> (r: Self)
        ensures
            r.seconds == if self.seconds >= other.seconds { self.seconds } else { other.seconds },
    {
        if self.seconds >= other.seconds {
            self
        } else {
            other
        }
    }
}

/// Identifier of a document.
#[derive(Clone, Debug, PartialEq, Eq, PartialOrd, Ord, Hash)]
pub struct DocumentId {
    value: String,
}

impl View for DocumentId {
    type V = Seq<char>;

    closed spec fn view(&self) -> Seq<char> {
        self.value@
    }
}

impl DocumentId {
    /// Parses a stored identifier.
    pub fn parse(text: &str) -> (r: Result<Self, MetaStoreError>)
        ensures
            r is Ok <==> valid_identifier(text@),
            r matches Ok(id) ==> id@ == text@,
            r matches Err(e) ==> e == MetaStoreError::InvalidValue("identifier"),
    {
        if is_valid_identifier(text) {
            Ok(DocumentId { value: text.to_owned() })
        } else {
            Err(MetaStoreError::InvalidValue("identifier"))
        }
    }

    pub fn as_str(&self) -> (r: &str)
        ensures
            r@ == self@,
    {
        self.value.as_str()
    }

    /// A copy with the same value.
    pub fn duplicate(&self) -> (r: Self)
        ensures
            r == *self,
            r@ == self@,
    {
        DocumentId { value: self.value.clone() }
    }

    /// Whether two identifiers are equal.
    pub fn same_as(&self, other: &Self) -> (r: bool)
        ensures
            r == (self@ == other@),
    {
        self.value == other.value
    }
}

/// Identifier of a resume version.
#[derive(Clone, Debug, PartialEq, Eq, PartialOrd, Ord, Hash)]
pub struct ResumeVersionId {
    value: String,
}

impl View for ResumeVersionId {
    type V = Seq<char>;

    closed spec fn view(&self) -> Seq<char> {
        self.value@
    }
}

impl ResumeVersionId {
    /// Parses a stored identifier.
    pub fn parse(text: &str) -> (r: Result<Self, MetaStoreError>)
        ensures
            r is Ok <==> valid_identifier(text@),
            r matches Ok(id) ==> id@ == text@,
            r matches Err(e) ==> e == MetaStoreError::InvalidValue("identifier"),
    {
        if is_valid_identifier(text) {
            Ok(ResumeVersionId { value: text.to_owned() })
        } else {
            Err(MetaStoreError::InvalidValue("identifier"))
        }
    }

    pub fn as_str(&self) -> (r: &str)
        ensures
            r@ == self@,
    {
        self.value.as_str()
    }

    /// A copy with the same value.
    pub fn duplicate(&self) -> (r: Self)
        ensures
            r == *self,
            r@ == self@,
    {
        ResumeVersionId { value: self.value.clone() }
    }

    /// Whether two identifiers are equal.
    pub fn same_as(&self, other: &Self) -> (r: bool)
        ensures
            r == (self@ == other@),
    {
        self.value == other.value
    }
}

/// Identifier of a source revision.
#[derive(Clone, Debug, PartialEq, Eq, PartialOrd, Ord, Hash)]
pub struct SourceRevisionId {
    value: String,
}

impl View for SourceRevisionId {
    type V = Seq<char>;

    closed spec fn view(&self) -> Seq<char> {
        self.value@
    }
}

impl SourceRevisionId {
    /// Parses a stored identifier.
    pub fn parse(text: &str) -> (r: Result<Self, MetaStoreError>)
        ensures
            r is Ok <==> valid_identifier(text@),
            r matches Ok(id) ==> id@ == text@,
            r matches Err(e) ==> e == MetaStoreError::InvalidValue("identifier"),
    {
        if is_valid_identifier(text) {
            Ok(SourceRevisionId { value: text.to_owned() })
        } else {
            Err(MetaStoreError::InvalidValue("identifier"))
        }
    }

    pub fn as_str(&self) -> (r: &str)
        ensures
            r@ == self@,
    {
        self.value.as_str()
    }

    /// A copy with the same value.
    pub fn duplicate(&self) -> (r: Self)
        ensures
            r == *self,
            r@ == self@,
    {
        SourceRevisionId { value: self.value.clone() }
    }

    /// Whether two identifiers are equal.
    pub fn same_as(&self, other: &Self) -> (r: bool)
        ensures
            r == (self@ == other@),
    {
        self.value == other.value
    }
}

/// Identifier of a source root.
#[derive(Clone, Debug, PartialEq, Eq, PartialOrd, Ord, Hash)]
pub struct SourceRootId {
    value: String,
}

impl View for SourceRootId {
    type V = Seq<char>;

    closed spec fn view(&self) -> Seq<char> {
        self.value@
    }
}

impl SourceRootId {
    /// Parses a stored identifier.
    pub fn parse(text: &str) -> (r: Result<Self, MetaStoreError>)
        ensures
            r is Ok <==> valid_identifier(text@),
            r matches Ok(id) ==> id@ == text@,
            r matches Err(e) ==> e == MetaStoreError::InvalidValue("identifier"),
    {
        if is_valid_identifier(text) {
            Ok(SourceRootId { value: text.to_owned() })
        } else {
            Err(MetaStoreError::InvalidValue("identifier"))
        }
    }

    pub fn as_str(&self) -> (r: &str)
        ensures
            r@ == self@,
    {
        self.value.as_str()
    }

    /// A copy with the same value.
    pub fn duplicate(&self) -> (r: Self)
        ensures
            r == *self,
            r@ == self@,
    {
        SourceRootId { value: self.value.clone() }
    }

    /// Whether two identifiers are equal.
    pub fn same_as(&self, other: &Self) -> (r: bool)
        ensures
            r == (self@ == other@),
    {
        self.value == other.value
    }
}

/// Identifier of a candidate.
#[derive(Clone, Debug, PartialEq, Eq, PartialOrd, Ord, Hash)]
pub struct CandidateId {
    value: String,
}

impl View for CandidateId {
    type V = Seq<char>;

    closed spec fn view(&self) -> Seq<char> {
        self.value@
    }
}

impl CandidateId {
    /// Parses a stored identifier.
    pub fn parse(text: &str) -> (r: Result<Self, MetaStoreError>)
        ensures
            r is Ok <==> valid_identifier(text@),
            r matches Ok(id) ==> id@ == text@,
            r matches Err(e) ==> e == MetaStoreError::InvalidValue("identifier"),
    {
        if is_valid_identifier(text) {
            Ok(CandidateId { value: text.to_owned() })
        } else {
            Err(MetaStoreError::InvalidValue("identifier"))
        }
    }

    pub fn as_str(&self) -> (r: &str)
        ensures
            r@ == self@,
    {
        self.value.as_str()
    }

    /// A copy with the same value.
    pub fn duplicate(&self) -> (r: Self)
        ensures
            r == *self,
            r@ == self@,
    {
        CandidateId { value: self.value.clone() }
    }

    /// Whether two identifiers are equal.
    pub fn same_as(&self, other: &Self) -> (r: bool)
        ensures
            r == (self@ == other@),
    {
        self.value == other.value
    }
}

/// Identifier of an import processing contract.
#[derive(Clone, Debug, PartialEq, Eq, PartialOrd, Ord, Hash)]
pub struct ImportProcessingContractId {
    value: String,
}

impl View for ImportProcessingContractId {
    type V = Seq<char>;

    closed spec fn view(&self) -> Seq<char> {
        self.value@
    }
}

impl ImportProcessingContractId {
    /// Parses a stored identifier.
    pub fn parse(text: &str) -> (r: Result<Self, MetaStoreError>)
        ensures
            r is Ok <==> valid_identifier(text@),
            r matches Ok(id) ==> id@ == text@,
            r matches Err(e) ==> e == MetaStoreError::InvalidValue("identifier"),
    {
        if is_valid_identifier(text) {
            Ok(ImportProcessingContractId { value: text.to_owned() })
        } else {
            Err(MetaStoreError::InvalidValue("identifier"))
        }
    }

    pub fn as_str(&self) -> (r: &str)
        ensures
            r@ == self@,
    {
        self.value.as_str()
    }

    /// A copy with the same value.
    pub fn duplicate(&self) -> (r: Self)
        ensures
            r == *self,
            r@ == self@,
    {
        ImportProcessingContractId { value: self.value.clone() }
    }

    /// Whether two identifiers are equal.
    pub fn same_as(&self, other: &Self) -> (r: bool)
        ensures
            r == (self@ == other@),
    {
        self.value == other.value
    }
}

} // verus!

verus! {

/// The exact resume version a document is searchable under.
#[derive(Clone, Debug, PartialEq, Eq, Hash)]
pub struct ActiveSearchProjection {
    pub document_id: DocumentId,
    pub resume_version_id: ResumeVersionId,
}

impl ActiveSearchProjection {
    /// A copy with the same identifiers.
    pub fn duplicate(&self) -> (r: Self)
        ensures
            r == *self,
    {
        ActiveSearchProjection {
            document_id: self.document_id.duplicate(),
            resume_version_id: self.resume_version_id.duplicate(),
        }
    }
}

} // verus!
