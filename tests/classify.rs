use call_python_inside_rust::error::{
    category_from_flags, classify, classify_failure, failure_from, settle, HostError, CategoryFlags, ErrorKind, ForeignCategory,
    ForeignFailure,
};

fn flags(syntax: bool, module_not_found: bool, type_error: bool, value_error: bool, attribute: bool) -> CategoryFlags {
    CategoryFlags { syntax, module_not_found, type_error, value_error, attribute }
}

#[test]
fn classify_table() {
    assert_eq!(classify(ForeignCategory::SyntaxError), ErrorKind::InvalidInput);
    assert_eq!(classify(ForeignCategory::ModuleNotFound), ErrorKind::NotFound);
    assert_eq!(classify(ForeignCategory::TypeError), ErrorKind::InvalidInput);
    assert_eq!(classify(ForeignCategory::ValueError), ErrorKind::InvalidInput);
    assert_eq!(classify(ForeignCategory::AttributeNotFound), ErrorKind::NotFound);
    assert_eq!(classify(ForeignCategory::Unspecified), ErrorKind::Other);
}

#[test]
fn category_most_specific_first() {
    assert_eq!(category_from_flags(flags(true, true, true, true, true)), ForeignCategory::SyntaxError);
    assert_eq!(category_from_flags(flags(false, true, true, false, false)), ForeignCategory::ModuleNotFound);
    assert_eq!(category_from_flags(flags(false, false, true, true, false)), ForeignCategory::TypeError);
    assert_eq!(category_from_flags(flags(false, false, false, true, true)), ForeignCategory::ValueError);
    assert_eq!(category_from_flags(flags(false, false, false, false, true)), ForeignCategory::AttributeNotFound);
    assert_eq!(category_from_flags(flags(false, false, false, false, false)), ForeignCategory::Unspecified);
}

#[test]
fn classified_failure_keeps_text() {
    let f = ForeignFailure { category: ForeignCategory::ModuleNotFound, message: "No module named 'emoji'".to_string() };
    let e = classify_failure(f);
    assert_eq!(e.kind, ErrorKind::NotFound);
    assert_eq!(e.message, "No module named 'emoji'");
}

#[test]
fn failure_from_flags_keeps_text() {
    let f = failure_from(flags(false, false, true, false, false), "unsupported operand".to_string());
    assert_eq!(f.category, ForeignCategory::TypeError);
    assert_eq!(f.message, "unsupported operand");
}

#[test]
fn settle_classifies_and_passes_reads() {
    let failed: Result<Result<i32, HostError>, ForeignFailure> =
        Err(ForeignFailure { category: ForeignCategory::SyntaxError, message: "bad".to_string() });
    assert_eq!(settle(failed), Err(HostError { kind: ErrorKind::InvalidInput, message: "bad".to_string() }));
    let read: Result<Result<i32, HostError>, ForeignFailure> = Ok(Ok(5));
    assert_eq!(settle(read), Ok(5));
    let mismatch = HostError { kind: ErrorKind::TypeMismatch, message: "not an int".to_string() };
    let read: Result<Result<i32, HostError>, ForeignFailure> = Ok(Err(mismatch.clone()));
    assert_eq!(settle(read), Err(mismatch));
}
