//! Verified core of the resume metadata store: publication, retirement,
//! deletion-receipt and paging rules, separated from SQLite I/O.
use vstd::prelude::*;

pub mod authority;
pub mod canonical;
pub mod commit_validation;
pub mod contract;
pub mod contract_migration;
pub mod descriptor_records;
pub mod digest;
pub mod error;
pub mod filter;
pub mod fingerprint;
pub mod ids;
pub mod import_commit;
pub mod lifecycle;
pub mod observation;
pub mod ocr_commit;
pub mod page_chain;
pub mod privacy;
pub mod projection_digest;
pub mod projection_transition;
pub mod publication_model;
pub mod publication_row;
pub mod publication_validation;
pub mod retirement;
pub mod retirement_settlement;
pub mod selection;
pub mod session;
pub mod snapshot;
pub mod source_root_deletion;
pub mod store_files;
pub mod text;
pub mod text_page;
pub mod trigger_sql;
pub mod writer_transition;

verus! {

} // verus!
