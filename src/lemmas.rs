use vstd::prelude::*;
use vstd::string::to_string_from_display_ensures;
use vstd::std_specs::convert::FromSpec;
use crate::error::{
    CodecError, DeadlineError, Error, ErrorInner, EvaluateError, StorageError, evaluate_label,
    storage_label,
};

verus! {

/// A codec failure that carries a message and a code converts into the custom
/// evaluation failure with exactly that code and message, whose code is that
/// code and whose text is that message.
pub proof fn lemma_codec_eval_is_custom(msg: String, code: i32)
    ensures
        ({
            let e = <EvaluateError as FromSpec<CodecError>>::from_spec(
                CodecError::Eval(msg, code),
            );
            &&& e == (EvaluateError::Custom { code, msg })
            &&& e.spec_code() == code
            &&& e.message() == msg@
        }),
{
}

/// Every deadline signal converts into the timeout failure, whose code is
/// 9007, and so does it on the way into the top-level error.
pub proof fn lemma_deadline_is_timeout(d: DeadlineError)
    ensures
        ({
            let e = <EvaluateError as FromSpec<DeadlineError>>::from_spec(d);
            &&& e == EvaluateError::MaxExecuteTimeExceeded
            &&& e.spec_code() == 9007
        }),
        *<Error as FromSpec<DeadlineError>>::from_spec(d).0 == ErrorInner::Evaluate(
            EvaluateError::MaxExecuteTimeExceeded,
        ),
{
}

/// A storage failure whose text is `text` shows, once turned into an `Error`,
/// as the storage label followed by `text`.
pub proof fn lemma_storage_shows_labelled(s: StorageError, text: String)
    requires
        to_string_from_display_ensures::<failure::Error>(&s.0, text),
    ensures
        <Error as FromSpec<StorageError>>::from_spec(s).shows(storage_label() + text@),
{
    let err = <Error as FromSpec<StorageError>>::from_spec(s);
    assert(*err.0 == ErrorInner::Storage(s));
}

/// A custom evaluation failure turned into an `Error` shows as the evaluation
/// label followed by its message, and its code stays readable in the
/// evaluation branch.
pub proof fn lemma_custom_shows_labelled(code: i32, msg: String)
    ensures
        ({
            let err = <Error as FromSpec<EvaluateError>>::from_spec(
                EvaluateError::Custom { code, msg },
            );
            &&& err.shows(evaluate_label() + msg@)
            &&& *err.0 matches ErrorInner::Evaluate(e) && e.spec_code() == code
        }),
{
}

/// An unclassified failure with text `t` turned into an `Error` shows as the
/// evaluation label followed by `t`, and has code 10000.
pub proof fn lemma_other_shows_labelled(t: String)
    ensures
        ({
            let err = <Error as FromSpec<EvaluateError>>::from_spec(EvaluateError::Other(t));
            &&& err.shows(evaluate_label() + t@)
            &&& *err.0 matches ErrorInner::Evaluate(e) && e.spec_code() == 10000
        }),
{
}

/// An `Error` made from a storage failure and one made from an evaluation
/// failure are never equal, and each keeps its source whole in its own branch.
pub proof fn lemma_branches_distinct(s: StorageError, e: EvaluateError)
    ensures
        <Error as FromSpec<StorageError>>::from_spec(s) != <Error as FromSpec<
            EvaluateError,
        >>::from_spec(e),
        *<Error as FromSpec<StorageError>>::from_spec(s).0 == ErrorInner::Storage(s),
        *<Error as FromSpec<EvaluateError>>::from_spec(e).0 == ErrorInner::Evaluate(e),
{
}

/// Two storage failures, or two evaluation failures, that give the same
/// `Error` are the same failure.
pub proof fn lemma_conversions_injective(
    s1: StorageError,
    s2: StorageError,
    e1: EvaluateError,
    e2: EvaluateError,
)
    ensures
        <Error as FromSpec<StorageError>>::from_spec(s1) == <Error as FromSpec<
            StorageError,
        >>::from_spec(s2) ==> s1 == s2,
        <Error as FromSpec<EvaluateError>>::from_spec(e1) == <Error as FromSpec<
            EvaluateError,
        >>::from_spec(e2) ==> e1 == e2,
{
}

} // verus!
