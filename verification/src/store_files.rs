use vstd::prelude::*;
use vstd::utf8::*;
use crate::text::text_equal;

verus! {

/// Whether `prefix` begins `text`.
pub open spec fn starts_with(text: Seq<u8>, prefix: Seq<u8>) -> bool {
    prefix.len() <= text.len() && text.take(prefix.len() as int) == prefix
}

/// Whether `suffix` ends `text`.
pub open spec fn ends_with(text: Seq<u8>, suffix: Seq<u8>) -> bool {
    suffix.len() <= text.len() && text.skip(text.len() - suffix.len()) == suffix
}

/// Checks whether a text starts with a prefix.
pub fn text_starts_with(text: &str, prefix: &str) -> (r: bool)
    ensures
        r == starts_with(encode_utf8(text@), encode_utf8(prefix@)),
{
    let t = text.as_bytes();
    let p = prefix.as_bytes();
    if p.len() > t.len() {
        return false;
    }
    let mut i: usize = 0;
    while i < p.len()
        invariant
            i <= p@.len() <= t@.len(),
            t@ == encode_utf8(text@),
            p@ == encode_utf8(prefix@),
            forall|k: int| 0 <= k < i ==> t@[k] == p@[k],
        decreases p.len() - i,
    {
        if t[i] != p[i] {
            assert(t@.take(p@.len() as int)[i as int] != p@[i as int]);
            return false;
        }
        i += 1;
    }
    assert(t@.take(p@.len() as int) =~= p@);
    true
}

/// Checks whether a text ends with a suffix.
pub fn text_ends_with(text: &str, suffix: &str) -> (r: bool)
    ensures
        r == ends_with(encode_utf8(text@), encode_utf8(suffix@)),
{
    let t = text.as_bytes();
    let s = suffix.as_bytes();
    if s.len() > t.len() {
        return false;
    }
    let offset = t.len() - s.len();
    let mut i: usize = 0;
    while i < s.len()
        invariant
            i <= s@.len() <= t@.len(),
            offset == t@.len() - s@.len(),
            t@.len() == t.len(),
            t@ == encode_utf8(text@),
            s@ == encode_utf8(suffix@),
            forall|k: int| 0 <= k < i ==> t@[offset + k] == s@[k],
        decreases s.len() - i,
    {
        if t[offset + i] != s[i] {
            assert(t@.skip(offset as int)[i as int] != s@[i as int]);
            return false;
        }
        i += 1;
    }
    assert(t@.skip(offset as int) =~= s@);
    true
}

/// Names that belong to the metadata store of a data directory: the store
/// file and its SQLite side files, the key directory, the migration lock,
/// cleanup receipts, migration attempts and their temporary files, active
/// manifests and their temporary files, fresh-store staging, and versioned
/// store files with a SQLite suffix.
pub open spec fn reserved_store_name(name: Seq<char>, store_file: Seq<char>, lock_file: Seq<char>) -> bool {
    let b = encode_utf8(name);
    let sw = |p: &str| starts_with(b, encode_utf8(p@));
    let ew = |p: &str| ends_with(b, encode_utf8(p@));
    ||| name == store_file
    ||| sw("metadata.sqlite3-")
    ||| name == "metadata-secrets"@
    ||| name == lock_file
    ||| name == "metadata-legacy-cleanup.v1"@
    ||| sw("metadata-legacy-cleanup.")
    ||| name == "metadata-v28-migration-attempt.v1"@
    ||| sw("metadata-v28-migration-attempt.")
    ||| sw(".metadata-v28-migration-attempt.v1.tmp-")
    ||| sw(".metadata-v28-migration-attempt.")
    ||| sw("metadata-active.")
    ||| sw(".metadata-active.")
    ||| sw(".metadata-active.v1.tmp-")
    ||| sw(".metadata-v29-init-")
    ||| ((sw("metadata-v") || sw(".metadata-v")) && (ew(".sqlite3") || ew(".sqlite3-journal")
        || ew(".sqlite3-wal") || ew(".sqlite3-shm")))
}

/// Whether a directory entry belongs to the metadata store, given the names
/// of the store file and of the migration lock file.
pub fn is_reserved_store_authority(name: &str, store_file: &str, lock_file: &str) -> (r: bool)
    ensures
        r == reserved_store_name(name@, store_file@, lock_file@),
{
    text_equal(name, store_file) || text_starts_with(name, "metadata.sqlite3-") || text_equal(
        name,
        "metadata-secrets",
    ) || text_equal(name, lock_file) || text_equal(name, "metadata-legacy-cleanup.v1")
        || text_starts_with(name, "metadata-legacy-cleanup.") || text_equal(
        name,
        "metadata-v28-migration-attempt.v1",
    ) || text_starts_with(name, "metadata-v28-migration-attempt.") || text_starts_with(
        name,
        ".metadata-v28-migration-attempt.v1.tmp-",
    ) || text_starts_with(name, ".metadata-v28-migration-attempt.") || text_starts_with(
        name,
        "metadata-active.",
    ) || text_starts_with(name, ".metadata-active.") || text_starts_with(
        name,
        ".metadata-active.v1.tmp-",
    ) || text_starts_with(name, ".metadata-v29-init-") || ((text_starts_with(name, "metadata-v")
        || text_starts_with(name, ".metadata-v")) && (text_ends_with(name, ".sqlite3")
        || text_ends_with(name, ".sqlite3-journal") || text_ends_with(name, ".sqlite3-wal")
        || text_ends_with(name, ".sqlite3-shm")))
}

} // verus!
