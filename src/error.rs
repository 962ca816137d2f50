use vstd::prelude::*;
use vstd::string::*;
use failure::Error as Failure;

verus! {

/// The code reported when the execution-time budget runs out.
pub const TIMEOUT_CODE: i32 = 9007;

/// The code reported for a failure that has not been classified yet.
pub const OTHER_CODE: i32 = 10000;

/// A failure of expression evaluation or of a type or codec conversion.
#[derive(Debug)]
pub enum EvaluateError {
    /// The execution-time budget ran out.
    MaxExecuteTimeExceeded,
    /// A legacy pair of code and message, passed through unchanged.
    Custom { code: i32, msg: String },
    /// Any failure that cannot be classified yet, by its text.
    Other(String),
}

/// The text shown for an exhausted execution-time budget.
pub open spec fn timeout_text() -> Seq<char> {
    "Execution terminated due to exceeding max time limit"@
}

impl EvaluateError {
    /// The numeric code of this failure.
    pub open spec fn spec_code(&self) -> i32 {
        match self {
            EvaluateError::MaxExecuteTimeExceeded => TIMEOUT_CODE,
            EvaluateError::Custom { code, .. } => *code,
            EvaluateError::Other(_) => OTHER_CODE,
        }
    }

    /// The display text of this failure.
    pub open spec fn message(&self) -> Seq<char> {
        match self {
            EvaluateError::MaxExecuteTimeExceeded => timeout_text(),
            EvaluateError::Custom { msg, .. } => msg@,
            EvaluateError::Other(text) => text@,
        }
    }

    /// Returns the error code.
    pub fn code(&self) -> (r: i32)
        ensures
            r == self.spec_code(),
            self is MaxExecuteTimeExceeded ==> r == 9007,
            self is Other ==> r == 10000,
            self matches EvaluateError::Custom { code, .. } ==> r == code,
    {
        match self {
            EvaluateError::MaxExecuteTimeExceeded => TIMEOUT_CODE,
            EvaluateError::Custom { code, .. } => *code,
            EvaluateError::Other(_) => OTHER_CODE,
        }
    }

    /// Returns the display text: a fixed sentence for the timeout, the
    /// message or the text itself for the other two variants.
    pub fn to_string(&self) -> (r: String)
        ensures
            r@ == self.message(),
    {
        match self {
            EvaluateError::MaxExecuteTimeExceeded => {
                String::from_str("Execution terminated due to exceeding max time limit")
            },
            EvaluateError::Custom { msg, .. } => msg.clone(),
            EvaluateError::Other(text) => text.clone(),
        }
    }
}

/// A failure of the value codec, as far as this taxonomy reads it.
#[derive(Debug)]
pub enum CodecError {
    /// An evaluation failure that already carries a message and a code.
    Eval(String, i32),
    /// Any other codec failure, by its display text.
    Other(String),
}

/// The signal that the execution-time budget has run out. It carries nothing
/// that the engine reports.
#[derive(Debug, Clone, Copy)]
pub struct DeadlineError;

impl From<CodecError> for EvaluateError {
    fn from(err: CodecError) -> (r: Self) {
        match err {
            CodecError::Eval(msg, code) => EvaluateError::Custom { code, msg },
            CodecError::Other(text) => EvaluateError::Other(text),
        }
    }
}

impl vstd::std_specs::convert::FromSpecImpl<CodecError> for EvaluateError {
    open spec fn obeys_from_spec() -> bool {
        true
    }

    open spec fn from_spec(err: CodecError) -> Self {
        match err {
            CodecError::Eval(msg, code) => EvaluateError::Custom { code, msg },
            CodecError::Other(text) => EvaluateError::Other(text),
        }
    }
}

impl From<DeadlineError> for EvaluateError {
    fn from(_signal: DeadlineError) -> (r: Self) {
        EvaluateError::MaxExecuteTimeExceeded
    }
}

impl vstd::std_specs::convert::FromSpecImpl<DeadlineError> for EvaluateError {
    open spec fn obeys_from_spec() -> bool {
        true
    }

    open spec fn from_spec(err: DeadlineError) -> Self {
        EvaluateError::MaxExecuteTimeExceeded
    }
}

/// Declares failure's `Error`, the storage layer's failure type, so that a
/// storage failure can carry it whole. Nothing inside it is read; its display
/// text comes through std's `ToString` over failure's `Display` impl.
#[verifier::external_type_specification]
#[verifier::external_body]
pub struct ExFailure(Failure);

/// A failure of the storage layer, kept whole with its cause chain.
#[derive(Debug)]
pub struct StorageError(pub Failure);

impl StorageError {
    /// Whether `text` is the storage label followed by a display text of the
    /// wrapped failure.
    pub open spec fn labelled_as(self, text: Seq<char>) -> bool {
        exists|t: String|
            #[trigger] to_string_from_display_ensures::<Failure>(&self.0, t) && text
                == storage_label() + t@
    }

    /// Returns the display text of the wrapped failure.
    pub fn to_string(&self) -> (r: String)
        ensures
            to_string_from_display_ensures::<Failure>(&self.0, r),
    {
        self.0.to_string()
    }
}

impl From<Failure> for StorageError {
    fn from(err: Failure) -> (r: Self) {
        StorageError(err)
    }
}

impl vstd::std_specs::convert::FromSpecImpl<Failure> for StorageError {
    open spec fn obeys_from_spec() -> bool {
        true
    }

    open spec fn from_spec(err: Failure) -> Self {
        StorageError(err)
    }
}

/// The label in front of a storage failure's text.
pub open spec fn storage_label() -> Seq<char> {
    "Storage error: "@
}

/// The label in front of an evaluation failure's text.
pub open spec fn evaluate_label() -> Seq<char> {
    "Evaluate error: "@
}

/// Either a storage failure or an evaluation failure, and nothing else.
#[derive(Debug)]
pub enum ErrorInner {
    Storage(StorageError),
    Evaluate(EvaluateError),
}

/// Puts the storage label in front of a storage failure's text.
pub fn storage_message(text: &str) -> (r: String)
    ensures
        r@ == storage_label() + text@,
{
    String::from_str("Storage error: ").concat(text)
}

/// Puts the evaluation label in front of an evaluation failure's text.
pub fn evaluate_message(text: &str) -> (r: String)
    ensures
        r@ == evaluate_label() + text@,
{
    String::from_str("Evaluate error: ").concat(text)
}

impl ErrorInner {
    /// Whether `text` is a display text of this failure: the branch's label,
    /// then the wrapped failure's own text.
    pub open spec fn shows(&self, text: Seq<char>) -> bool {
        match self {
            ErrorInner::Storage(s) => s.labelled_as(text),
            ErrorInner::Evaluate(e) => text == evaluate_label() + e.message(),
        }
    }

    /// Returns the display text: the branch's label, then the wrapped
    /// failure's own text.
    pub fn to_string(&self) -> (r: String)
        ensures
            self.shows(r@),
    {
        match self {
            ErrorInner::Storage(s) => {
                let text = s.to_string();
                storage_message(text.as_str())
            },
            ErrorInner::Evaluate(e) => {
                let text = e.to_string();
                evaluate_message(text.as_str())
            },
        }
    }
}

/// The error type of the evaluation engine.
#[derive(Debug)]
pub struct Error(pub Box<ErrorInner>);

impl Error {
    /// Whether `text` is a display text of this error.
    pub open spec fn shows(&self, text: Seq<char>) -> bool {
        self.0.shows(text)
    }

    /// Returns the display text of the wrapped failure, with no framing of
    /// its own.
    pub fn to_string(&self) -> (r: String)
        ensures
            self.shows(r@),
    {
        self.0.to_string()
    }
}

impl From<StorageError> for Error {
    fn from(e: StorageError) -> (r: Self) {
        Error(Box::new(ErrorInner::Storage(e)))
    }
}

impl vstd::std_specs::convert::FromSpecImpl<StorageError> for Error {
    open spec fn obeys_from_spec() -> bool {
        true
    }

    open spec fn from_spec(e: StorageError) -> Self {
        Error(Box::new(ErrorInner::Storage(e)))
    }
}

impl From<EvaluateError> for Error {
    fn from(e: EvaluateError) -> (r: Self) {
        Error(Box::new(ErrorInner::Evaluate(e)))
    }
}

impl vstd::std_specs::convert::FromSpecImpl<EvaluateError> for Error {
    open spec fn obeys_from_spec() -> bool {
        true
    }

    open spec fn from_spec(e: EvaluateError) -> Self {
        Error(Box::new(ErrorInner::Evaluate(e)))
    }
}

impl From<CodecError> for Error {
    fn from(err: CodecError) -> (r: Self) {
        Error::from(EvaluateError::from(err))
    }
}

impl vstd::std_specs::convert::FromSpecImpl<CodecError> for Error {
    open spec fn obeys_from_spec() -> bool {
        true
    }

    open spec fn from_spec(err: CodecError) -> Self {
        Error(Box::new(ErrorInner::Evaluate(<EvaluateError as vstd::std_specs::convert::FromSpec<_>>::from_spec(err))))
    }
}

impl From<DeadlineError> for Error {
    fn from(err: DeadlineError) -> (r: Self) {
        Error::from(EvaluateError::from(err))
    }
}

impl vstd::std_specs::convert::FromSpecImpl<DeadlineError> for Error {
    open spec fn obeys_from_spec() -> bool {
        true
    }

    open spec fn from_spec(err: DeadlineError) -> Self {
        Error(Box::new(ErrorInner::Evaluate(<EvaluateError as vstd::std_specs::convert::FromSpec<_>>::from_spec(err))))
    }
}

/// The result of every fallible operation of the engine.
pub type Result<T> = std::result::Result<T, Error>;

} // verus!
