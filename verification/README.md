# meta_store

The metadata store of a local resume search engine: the rules that decide
how search publications are begun, validated, committed and retired, how
source roots are deleted, how stored rows are read back, and how text pages
and filters are bounded. The rules are written in Verus and proved against
their contracts; the SQLite plumbing around them is ordinary Rust.

## Layout

- `src/`: the verified library.
  - `publication_model.rs`, `publication_validation.rs`, `lifecycle.rs`,
    `fingerprint.rs`, `commit_validation.rs`, `projection_transition.rs`,
    `publication_row.rs`: search publications, from draft to ready head.
  - `authority.rs`, `session.rs`, `contract.rs`, `contract_migration.rs`,
    `writer_transition.rs`, `descriptor_records.rs`: what entitles a
    publication or a writer to replace the head.
  - `retirement.rs`, `retirement_settlement.rs`: retiring publications and
    settling a failed retirement step by step.
  - `source_root_deletion.rs`, `observation.rs`, `import_commit.rs`,
    `privacy.rs`: deletion receipts, scan fences, file observations and
    privacy purges.
  - `snapshot.rs`, `selection.rs`, `filter.rs`, `text_page.rs`,
    `page_chain.rs`: the read side of the search metadata, and the law that
    chained byte pages cover a text exactly once.
  - `digest.rs`, `projection_digest.rs`, `canonical.rs`, `text.rs`, `ids.rs`,
    `trigger_sql.rs`, `store_files.rs`, `error.rs`: shared values and
    encodings.
- `tests/`: tests of the library on concrete values.
- `app/`: the SQLite store that reads and writes rows and hands the library
  plain values.
