use meta_store::digest::ContentDigest;
use meta_store::ids::{
    is_valid_identifier, ActiveSearchProjection, DocumentId, ResumeVersionId, UnixTimestamp,
};
use meta_store::projection_digest::{bytes_less_exec, SearchProjectionDigest};
use meta_store::publication_validation::empty_projection_digest_value;
use meta_store::text::{bytes_equal, text_equal};

fn projection(document: &str, version: &str) -> ActiveSearchProjection {
    ActiveSearchProjection {
        document_id: DocumentId::parse(document).unwrap(),
        resume_version_id: ResumeVersionId::parse(version).unwrap(),
    }
}

#[test]
fn content_digest_is_sha256_in_lowercase_hex() {
    assert_eq!(
        ContentDigest::from_bytes(b"").as_str(),
        "sha256:e3b0c44298fc1c149afbf4c8996fb92427ae41e4649b934ca495991b7852b855"
    );
    assert_eq!(
        ContentDigest::from_bytes(b"abc").as_str(),
        "sha256:ba7816bf8f01cfea414140de5dae2223b00361a396177a9cb410ff61f20015ad"
    );
}

#[test]
fn content_digest_text_round_trips() {
    let digest = ContentDigest::from_bytes(b"resume");
    let parsed = ContentDigest::parse(digest.as_str()).unwrap();
    assert!(parsed.same_as(&digest));
    assert_eq!(parsed, digest.duplicate());
}

#[test]
fn content_digest_parse_rejects_malformed_text() {
    let valid = "sha256:e3b0c44298fc1c149afbf4c8996fb92427ae41e4649b934ca495991b7852b855";
    assert!(ContentDigest::parse(valid).is_some());
    assert!(ContentDigest::parse(&valid.to_uppercase()).is_none());
    assert!(ContentDigest::parse(&valid[..70]).is_none());
    assert!(ContentDigest::parse(&format!("{valid}0")).is_none());
    assert!(ContentDigest::parse(&valid.replace("sha256:", "sha512:")).is_none());
    assert!(ContentDigest::parse(&valid.replace('e', "g")).is_none());
    assert!(ContentDigest::parse("").is_none());
}

#[test]
fn projection_digest_of_no_projection_is_the_empty_digest() {
    let digest = SearchProjectionDigest::from_pairs(&[]).unwrap();
    assert_eq!(
        digest.as_str(),
        "sha256:ce7b7bf991942dc39398eca852ce1b86b5dfbd62514108b26e62977f0f4a7676"
    );
    assert!(digest.same_as(&empty_projection_digest_value()));
}

#[test]
fn projection_digest_frames_each_pair_in_document_order() {
    let digest =
        SearchProjectionDigest::from_pairs(&[projection("doc-a", "ver-a"), projection("doc-b", "ver-b")])
            .unwrap();
    assert_eq!(
        digest.as_str(),
        "sha256:d76f459dc8c015fb784955ef19f2e7ed61faa2a26cd84a5b9cf497e9a7412f83"
    );
    let from_text = SearchProjectionDigest::from_text_pairs(&[
        ("doc-a".to_string(), "ver-a".to_string()),
        ("doc-b".to_string(), "ver-b".to_string()),
    ])
    .unwrap();
    assert!(from_text.same_as(&digest));
}

#[test]
fn projection_digest_refuses_unordered_or_repeated_documents() {
    assert!(SearchProjectionDigest::from_pairs(&[
        projection("doc-b", "ver-b"),
        projection("doc-a", "ver-a")
    ])
    .is_none());
    assert!(SearchProjectionDigest::from_pairs(&[
        projection("doc-a", "ver-a"),
        projection("doc-a", "ver-b")
    ])
    .is_none());
    assert!(SearchProjectionDigest::from_text_pairs(&[
        ("doc-b".to_string(), "ver-b".to_string()),
        ("doc-a".to_string(), "ver-a".to_string()),
    ])
    .is_none());
}

#[test]
fn projection_digest_parse_round_trips() {
    let digest = SearchProjectionDigest::from_pairs(&[projection("doc-a", "ver-a")]).unwrap();
    let parsed = SearchProjectionDigest::parse(digest.as_str()).unwrap();
    assert!(parsed.same_as(&digest));
    assert!(SearchProjectionDigest::parse("sha256:xyz").is_none());
}

#[test]
fn byte_order_is_lexicographic() {
    assert!(bytes_less_exec(b"a", b"b"));
    assert!(bytes_less_exec(b"ab", b"abc"));
    assert!(bytes_less_exec(b"", b"a"));
    assert!(!bytes_less_exec(b"b", b"a"));
    assert!(!bytes_less_exec(b"abc", b"abc"));
    assert!(!bytes_less_exec(b"abc", b"ab"));
}

#[test]
fn identifiers_are_printable_ascii_and_bounded() {
    assert!(is_valid_identifier("doc-1"));
    assert!(!is_valid_identifier(""));
    assert!(!is_valid_identifier("has space"));
    assert!(!is_valid_identifier("tab\there"));
    assert!(!is_valid_identifier("é"));
    assert!(is_valid_identifier(&"x".repeat(128)));
    assert!(!is_valid_identifier(&"x".repeat(129)));
    assert!(DocumentId::parse("bad id").is_err());
    let id = DocumentId::parse("doc-1").unwrap();
    assert_eq!(id.as_str(), "doc-1");
    assert!(id.same_as(&id.duplicate()));
}

#[test]
fn latest_timestamp_keeps_the_later_instant() {
    let a = UnixTimestamp::from_unix_seconds(10);
    let b = UnixTimestamp::from_unix_seconds(20);
    assert_eq!(a.latest(b).as_unix_seconds(), 20);
    assert_eq!(b.latest(a).as_unix_seconds(), 20);
    assert_eq!(a.latest(a).as_unix_seconds(), 10);
}

#[test]
fn text_and_byte_equality() {
    assert!(bytes_equal(b"abc", b"abc"));
    assert!(!bytes_equal(b"abc", b"abd"));
    assert!(!bytes_equal(b"abc", b"ab"));
    assert!(text_equal("résumé", "résumé"));
    assert!(!text_equal("résumé", "resume"));
}
