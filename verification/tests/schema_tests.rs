use meta_store::error::MetaStoreError;
use meta_store::trigger_sql::{
    canonical_trigger_sql, check_attempt_schema, check_retirement_schema_counts,
    check_trigger_definition, find_text, trigger_definition, RetirementSchemaCounts,
};

fn counts() -> RetirementSchemaCounts {
    RetirementSchemaCounts {
        authority_columns: 8,
        required_tables: 3,
        required_triggers: 4,
        pending_indexes: 1,
        invalid_retirements: 0,
        pending_retirements: 64,
        completion_guards: 0,
    }
}

#[test]
fn trigger_sql_is_compared_up_to_white_space_and_semicolons() {
    assert_eq!(
        canonical_trigger_sql("  CREATE TRIGGER t\n  AFTER INSERT ON x\tBEGIN SELECT 1; END;;  \n"),
        "CREATE TRIGGER t AFTER INSERT ON x BEGIN SELECT 1; END"
    );
    assert_eq!(canonical_trigger_sql(""), "");
    assert_eq!(canonical_trigger_sql(" ;; "), "");
    assert_eq!(
        check_trigger_definition(Some("CREATE TRIGGER t BEGIN\n SELECT 1;\nEND;"), "CREATE TRIGGER t BEGIN SELECT 1; END"),
        Ok(())
    );
    assert_eq!(
        check_trigger_definition(Some("CREATE TRIGGER t BEGIN SELECT 2; END"), "CREATE TRIGGER t BEGIN SELECT 1; END"),
        Err(MetaStoreError::StorageInvariant)
    );
    assert_eq!(check_trigger_definition(None, "x"), Err(MetaStoreError::StorageInvariant));
}

#[test]
fn text_search_finds_the_first_occurrence() {
    assert_eq!(find_text("abcabc", "bc"), Some(1));
    assert_eq!(find_text("abc", ""), Some(0));
    assert_eq!(find_text("abc", "abcd"), None);
    assert_eq!(find_text("héllo wörld", "wö"), Some(6));
}

#[test]
fn retirement_schema_counts_are_exact() {
    assert_eq!(check_retirement_schema_counts(&counts()), Ok(()));
    let mut c = counts();
    c.pending_retirements = 65;
    assert_eq!(check_retirement_schema_counts(&c), Err(MetaStoreError::StorageInvariant));
    let mut c = counts();
    c.completion_guards = 1;
    assert_eq!(check_retirement_schema_counts(&c), Err(MetaStoreError::StorageInvariant));
    let mut c = counts();
    c.authority_columns = 7;
    assert_eq!(check_retirement_schema_counts(&c), Err(MetaStoreError::StorageInvariant));
}

#[test]
fn attempt_schema_must_admit_terminal_cleanup() {
    assert_eq!(
        check_attempt_schema("CHECK (phase IN ('running', 'terminal')) CHECK (class IN ('cleanup'))"),
        Ok(())
    );
    assert_eq!(
        check_attempt_schema("CHECK (phase IN ('running'))"),
        Err(MetaStoreError::StorageInvariant)
    );
}

#[test]
fn trigger_definitions_are_cut_from_the_schema() {
    let schema = "CREATE TABLE a(x);\nCREATE TRIGGER first\nBEFORE INSERT ON a BEGIN SELECT 1;\nEND;\nCREATE TRIGGER second\nBEGIN SELECT 2;\nEND;\n";
    assert_eq!(
        trigger_definition(schema, "second"),
        Ok("CREATE TRIGGER second\nBEGIN SELECT 2;\nEND;".to_string())
    );
    assert_eq!(
        trigger_definition(schema, "first"),
        Ok("CREATE TRIGGER first\nBEFORE INSERT ON a BEGIN SELECT 1;\nEND;".to_string())
    );
    assert_eq!(trigger_definition(schema, "firs"), Err(MetaStoreError::StorageInvariant));
    assert_eq!(trigger_definition(schema, "third"), Err(MetaStoreError::StorageInvariant));
}

const RETIREMENT_TRIGGERS: &str = "
CREATE TRIGGER search_publication_abandon_requires_retirement
BEFORE UPDATE OF state ON search_publication_journal
WHEN NEW.state = 'abandoned' AND NOT EXISTS (
    SELECT 1 FROM search_publication_retirement AS retirement
    WHERE retirement.generation = NEW.generation
)
BEGIN
    SELECT RAISE(ABORT, 'abandoned publication requires retirement intent');
END;

CREATE TRIGGER pending_search_publication_cannot_be_deleted
BEFORE DELETE ON search_publication_journal
WHEN EXISTS (
    SELECT 1 FROM search_publication_retirement AS retirement
    WHERE retirement.generation = OLD.generation AND retirement.phase = 'pending'
)
BEGIN
    SELECT RAISE(ABORT, 'pending publication retirement cannot be pruned');
END;
";

#[test]
fn v29_reopen_validation_rejects_a_tampered_retirement_trigger() {
    let expected = trigger_definition(RETIREMENT_TRIGGERS, "pending_search_publication_cannot_be_deleted").unwrap();
    let stored = "CREATE TRIGGER pending_search_publication_cannot_be_deleted
             BEFORE DELETE ON search_publication_journal
             WHEN EXISTS (
                 SELECT 1 FROM search_publication_retirement AS retirement
                 WHERE retirement.generation = OLD.generation AND retirement.phase = 'pending'
             )
             BEGIN
                 SELECT RAISE(ABORT, 'pending publication retirement cannot be pruned');
             END";
    assert_eq!(check_trigger_definition(Some(stored), &expected), Ok(()));
    let tampered = "CREATE TRIGGER pending_search_publication_cannot_be_deleted
             BEFORE DELETE ON search_publication_journal
             WHEN 0
             BEGIN
                 SELECT 1;
             END";
    assert_eq!(
        check_trigger_definition(Some(tampered), &expected),
        Err(MetaStoreError::StorageInvariant)
    );
    assert_eq!(check_trigger_definition(None, &expected), Err(MetaStoreError::StorageInvariant));
}
