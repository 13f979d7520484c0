use vstd::prelude::*;

verus! {

/// Host-side classification of every failure the bridge can report.
#[derive(Clone, Copy, Debug, PartialEq, Eq, Structural)]
pub enum ErrorKind {
    InvalidInput,
    NotFound,
    PermissionDenied,
    UnexpectedEof,
    TypeMismatch,
    Other,
}

/// The declared category of a failure raised by the embedded interpreter.
#[derive(Clone, Copy, Debug, PartialEq, Eq, Structural)]
pub enum ForeignCategory {
    SyntaxError,
    ModuleNotFound,
    TypeError,
    ValueError,
    AttributeNotFound,
    Unspecified,
}

/// A failure as the interpreter reported it: its category and its text.
#[derive(Clone, Debug, PartialEq, Eq)]
pub struct ForeignFailure {
    pub category: ForeignCategory,
    pub message: String,
}

/// A classified failure, still carrying the interpreter's own text.
#[derive(Clone, Debug, PartialEq, Eq)]
pub struct HostError {
    pub kind: ErrorKind,
    pub message: String,
}

/// Which of the categories the bridge tells apart a raised exception belongs to.
#[derive(Clone, Copy, Debug, PartialEq, Eq, Structural)]
pub struct CategoryFlags {
    pub syntax: bool,
    pub module_not_found: bool,
    pub type_error: bool,
    pub value_error: bool,
    pub attribute: bool,
}

/// The host error kind that a foreign failure category maps to.
pub open spec fn kind_of(c: ForeignCategory) -> ErrorKind {
    match c {
        ForeignCategory::SyntaxError => ErrorKind::InvalidInput,
        ForeignCategory::ModuleNotFound => ErrorKind::NotFound,
        ForeignCategory::TypeError => ErrorKind::InvalidInput,
        ForeignCategory::ValueError => ErrorKind::InvalidInput,
        ForeignCategory::AttributeNotFound => ErrorKind::NotFound,
        ForeignCategory::Unspecified => ErrorKind::Other,
    }
}

/// The category of an exception, the most specific one first.
pub open spec fn category_spec(f: CategoryFlags) -> ForeignCategory {
    if f.syntax {
        ForeignCategory::SyntaxError
    } else if f.module_not_found {
        ForeignCategory::ModuleNotFound
    } else if f.type_error {
        ForeignCategory::TypeError
    } else if f.value_error {
        ForeignCategory::ValueError
    } else if f.attribute {
        ForeignCategory::AttributeNotFound
    } else {
        ForeignCategory::Unspecified
    }
}

/// Maps a foreign failure category onto the host error taxonomy.
pub fn classify(c: ForeignCategory) -> (k: ErrorKind)
    ensures
        k == kind_of(c),
{
    match c {
        ForeignCategory::SyntaxError => ErrorKind::InvalidInput,
        ForeignCategory::ModuleNotFound => ErrorKind::NotFound,
        ForeignCategory::TypeError => ErrorKind::InvalidInput,
        ForeignCategory::ValueError => ErrorKind::InvalidInput,
        ForeignCategory::AttributeNotFound => ErrorKind::NotFound,
        ForeignCategory::Unspecified => ErrorKind::Other,
    }
}

/// Picks the category of an exception from what its type matched.
pub fn category_from_flags(f: CategoryFlags) -> (c: ForeignCategory)
    ensures
        c == category_spec(f),
{
    if f.syntax {
        ForeignCategory::SyntaxError
    } else if f.module_not_found {
        ForeignCategory::ModuleNotFound
    } else if f.type_error {
        ForeignCategory::TypeError
    } else if f.value_error {
        ForeignCategory::ValueError
    } else if f.attribute {
        ForeignCategory::AttributeNotFound
    } else {
        ForeignCategory::Unspecified
    }
}

/// The host error a foreign failure becomes: its classified kind, with the
/// interpreter's text kept.
pub open spec fn host_error_of(f: ForeignFailure) -> HostError {
    HostError { kind: kind_of(f.category), message: f.message }
}

/// Classifies a foreign failure and keeps its diagnostic text.
pub fn classify_failure(f: ForeignFailure) -> (e: HostError)
    ensures
        e == host_error_of(f),
        e.kind == kind_of(f.category),
        e.message@ == f.message@,
{
    HostError { kind: classify(f.category), message: f.message }
}

/// Whether a host error is some interpreter failure, classified.
pub open spec fn classified(e: HostError) -> bool {
    exists|f: ForeignFailure| e == #[trigger] host_error_of(f)
}

/// Records a raised exception from what its type matched and its text.
pub fn failure_from(flags: CategoryFlags, message: String) -> (f: ForeignFailure)
    ensures
        f.category == category_spec(flags),
        f.message == message,
{
    ForeignFailure { category: category_from_flags(flags), message }
}

/// The host outcome of a foreign call: a failed call is classified, a
/// finished one is whatever reading its result gave.
pub open spec fn settled<T>(call: Result<Result<T, HostError>, ForeignFailure>) -> Result<T, HostError> {
    match call {
        Ok(read) => read,
        Err(f) => Err(host_error_of(f)),
    }
}

/// Reading a call's result back fails only as a type mismatch.
pub open spec fn read_mismatch<T>(call: Result<Result<T, HostError>, ForeignFailure>) -> bool {
    call is Ok && call->Ok_0 is Err ==> call->Ok_0->Err_0.kind == ErrorKind::TypeMismatch
}

/// Settles the outcome of a foreign call into a host result.
pub fn settle<T>(call: Result<Result<T, HostError>, ForeignFailure>) -> (r: Result<T, HostError>)
    ensures
        r == settled(call),
{
    match call {
        Ok(read) => read,
        Err(f) => Err(classify_failure(f)),
    }
}

/// A failure whose type matched one of the known categories is never filed
/// under the catch-all kind: syntax errors and bad argument types or values are
/// invalid input, missing modules and missing functions are not found, and the
/// verdict depends on the category alone.
pub proof fn lemma_classification_determinism(f: CategoryFlags, g: CategoryFlags)
    ensures
        f.syntax ==> kind_of(category_spec(f)) == ErrorKind::InvalidInput,
        !f.syntax && f.module_not_found ==> kind_of(category_spec(f)) == ErrorKind::NotFound,
        !f.syntax && !f.module_not_found && (f.type_error || f.value_error) ==> kind_of(
            category_spec(f),
        ) == ErrorKind::InvalidInput,
        kind_of(ForeignCategory::AttributeNotFound) == ErrorKind::NotFound,
        (f.syntax || f.module_not_found || f.type_error || f.value_error || f.attribute)
            ==> kind_of(category_spec(f)) != ErrorKind::Other,
        f == g ==> kind_of(category_spec(f)) == kind_of(category_spec(g)),
{
}

} // verus!
