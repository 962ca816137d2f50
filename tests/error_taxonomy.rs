use tidb_query::{
    evaluate_message, storage_message, CodecError, DeadlineError, Error, ErrorInner,
    EvaluateError, StorageError,
};

fn inner(err: &Error) -> &ErrorInner {
    &err.0
}

#[test]
fn code_of_timeout_is_9007() {
    assert_eq!(EvaluateError::MaxExecuteTimeExceeded.code(), 9007);
}

#[test]
fn code_of_custom_is_embedded() {
    let e = EvaluateError::Custom { code: -3, msg: "x".to_string() };
    assert_eq!(e.code(), -3);
    assert_eq!(e.code(), e.code());
}

#[test]
fn code_of_other_is_10000() {
    assert_eq!(EvaluateError::Other(String::new()).code(), 10000);
}

#[test]
fn timeout_text_is_fixed() {
    assert_eq!(
        EvaluateError::MaxExecuteTimeExceeded.to_string(),
        "Execution terminated due to exceeding max time limit"
    );
}

#[test]
fn codec_eval_converts_to_custom() {
    let e = EvaluateError::from(CodecError::Eval("bad cast".to_string(), 1690));
    assert!(matches!(&e, EvaluateError::Custom { code: 1690, msg } if msg == "bad cast"));
    assert_eq!(e.code(), 1690);
    assert_eq!(e.to_string(), "bad cast");
}

#[test]
fn codec_other_converts_to_other() {
    let e = EvaluateError::from(CodecError::Other("key too short".to_string()));
    assert!(matches!(&e, EvaluateError::Other(t) if t == "key too short"));
    assert_eq!(e.code(), 10000);
    assert_eq!(e.to_string(), "key too short");
}

#[test]
fn deadline_converts_to_timeout() {
    let e = EvaluateError::from(DeadlineError);
    assert!(matches!(e, EvaluateError::MaxExecuteTimeExceeded));
    assert_eq!(e.code(), 9007);
    let err = Error::from(DeadlineError);
    assert_eq!(
        err.to_string(),
        "Evaluate error: Execution terminated due to exceeding max time limit"
    );
}

#[test]
fn storage_fault_shows_with_label() {
    let s = StorageError::from(failure::err_msg("disk full"));
    assert_eq!(s.to_string(), "disk full");
    let err = Error::from(s);
    assert_eq!(err.to_string(), "Storage error: disk full");
    assert!(matches!(inner(&err), ErrorInner::Storage(_)));
}

#[test]
fn custom_error_shows_with_label_and_keeps_code() {
    let e = EvaluateError::Custom { code: 1105, msg: "overflow".to_string() };
    let err = Error::from(e);
    assert_eq!(err.to_string(), "Evaluate error: overflow");
    match inner(&err) {
        ErrorInner::Evaluate(e) => assert_eq!(e.code(), 1105),
        ErrorInner::Storage(_) => panic!("expected the evaluation branch"),
    }
}

#[test]
fn branches_are_distinguishable() {
    let from_storage = Error::from(StorageError(failure::err_msg("overflow")));
    let from_eval = Error::from(EvaluateError::Other("overflow".to_string()));
    assert!(matches!(inner(&from_storage), ErrorInner::Storage(_)));
    assert!(matches!(inner(&from_eval), ErrorInner::Evaluate(EvaluateError::Other(t)) if t == "overflow"));
    assert_ne!(from_storage.to_string(), from_eval.to_string());
}

#[test]
fn boxed_error_converts_to_other() {
    let boxed: Box<dyn std::error::Error + Send + Sync> = Box::from("unexpected null");
    let err = Error::from(EvaluateError::Other(boxed.to_string()));
    assert_eq!(err.to_string(), "Evaluate error: unexpected null");
    match inner(&err) {
        ErrorInner::Evaluate(e) => assert_eq!(e.code(), 10000),
        ErrorInner::Storage(_) => panic!("expected the evaluation branch"),
    }
}

#[test]
fn codec_error_converts_into_error() {
    let err = Error::from(CodecError::Eval("division by zero".to_string(), 1365));
    assert_eq!(err.to_string(), "Evaluate error: division by zero");
    match inner(&err) {
        ErrorInner::Evaluate(e) => assert_eq!(e.code(), 1365),
        ErrorInner::Storage(_) => panic!("expected the evaluation branch"),
    }
}

#[test]
fn labels_are_prefixed() {
    assert_eq!(storage_message("io"), "Storage error: io");
    assert_eq!(evaluate_message(""), "Evaluate error: ");
    assert_eq!(storage_message(""), "Storage error: ");
    assert_eq!(evaluate_message("oops"), "Evaluate error: oops");
}

#[test]
fn inner_shows_with_label() {
    let i = ErrorInner::Evaluate(EvaluateError::Other("bad".to_string()));
    assert_eq!(i.to_string(), "Evaluate error: bad");
    let s = ErrorInner::Storage(StorageError(failure::err_msg("gone")));
    assert_eq!(s.to_string(), "Storage error: gone");
}

#[test]
fn error_debug_is_available() {
    let err = Error::from(EvaluateError::Other("z".to_string()));
    assert!(!format!("{:?}", err).is_empty());
}
