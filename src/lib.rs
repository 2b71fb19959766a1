//! A small gateway between HTTP clients and a key-value store: it turns
//! requests into store commands and store outcomes into HTTP statuses.
mod command;
mod gateway;
mod status;
mod store_model;

pub use command::{
    get_command, set_command, write_command, CacheEntry, CommandView, EntryView, StoreCommand,
};
pub use gateway::{
    contains_text, get_reply, get_response, health_check, is_not_found_description,
    not_found_signature, read_outcome, reply_view, reports_absent, set_response, set_status,
    write_outcome, FailureView, StoreFailure,
};
pub use status::Status;
pub use store_model::{
    accepts, lemma_get_absent, lemma_overwrite, lemma_set_then_get,
    lemma_set_with_expiry_then_get, lemma_store_failure_is_internal, lemma_unreachable_store,
    valid_ttl, StoreModel, StoredValue,
};
