//! Error taxonomy of the query-evaluation engine.
//!
//! Every fallible operation of the engine reports one of two kinds of
//! failure: a storage failure, which is opaque and has no numeric code, or an
//! evaluation failure, which always maps to exactly one numeric code.

mod error;

pub use error::EvaluateError;
mod lemmas;

pub use error::{
    CodecError, DeadlineError, Error, ErrorInner, OTHER_CODE, Result, StorageError, TIMEOUT_CODE,
    evaluate_label, evaluate_message, storage_label, storage_message, timeout_text,
};
pub use lemmas::{
    lemma_branches_distinct, lemma_codec_eval_is_custom, lemma_conversions_injective,
    lemma_custom_shows_labelled, lemma_deadline_is_timeout, lemma_other_shows_labelled,
    lemma_storage_shows_labelled,
};
