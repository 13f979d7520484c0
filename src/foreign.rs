use vstd::prelude::*;
use pyo3::types::IntoPyDict;
use pyo3::types::PyTuple;
use pyo3::PyAny;
use pyo3::PyErr;
use pyo3::Python;
use pyo3::ToPyObject;
use crate::error::{
    failure_from, CategoryFlags, ErrorKind, ForeignCategory, ForeignFailure, HostError,
};

verus! {

#[verifier::external_type_specification]
#[verifier::external_body]
pub struct ExPython<'py>(Python<'py>);

#[verifier::external_type_specification]
#[verifier::external_body]
pub struct ExPyAny(PyAny);

#[verifier::external_type_specification]
#[verifier::external_body]
pub struct ExPyErr(PyErr);

/// A host value handed to a foreign function as a positional argument.
#[derive(Clone, Debug, PartialEq, Eq)]
pub enum HostValue {
    Int(i64),
    Char(char),
    Str(String),
}

/// A foreign object, with the host value it was made from where the library
/// made it; objects the interpreter hands back have no such origin.
pub struct ForeignValue<'py> {
    obj: &'py PyAny,
    origin: Ghost<Option<HostValue>>,
}

impl<'py> ForeignValue<'py> {
    /// The host value this object was marshalled from, if any.
    pub closed spec fn origin(&self) -> Option<HostValue> {
        self.origin@
    }

    /// An object the interpreter handed back.
    pub fn returned(obj: &'py PyAny) -> (v: ForeignValue<'py>)
        ensures
            v.origin() is None,
    {
        ForeignValue { obj, origin: Ghost(None) }
    }

    pub fn object(&self) -> &'py PyAny {
        self.obj
    }
}

/// Relies on `Python::with_gil`: runs `f` once, with the interpreter lock
/// held for exactly that call, and returns what it returns.
#[verifier::external_body]
pub(crate) fn with_session<F, R>(f: F) -> (r: R) where F: for <'py>FnOnce(Python<'py>) -> R
    requires
        forall|py: Python<'_>| f.requires((py,)),
    ensures
        exists|py: Python<'_>| f.ensures((py,), r),
{
    Python::with_gil(f)
}

/// Relies on `PyModule::from_code`: compiles the text as a module and runs
/// its top-level statements.
#[verifier::external_body]
fn module_from_code<'py>(py: Python<'py>, code: &str, file_name: &str, module_name: &str) -> (r:
    Result<&'py PyAny, PyErr>) {
    pyo3::types::PyModule::from_code(py, code, file_name, module_name).map(|m| m.as_ref())
}

/// Relies on `Python::import`: imports a module installed for the interpreter.
#[verifier::external_body]
pub(crate) fn import_module<'py>(py: Python<'py>, name: &str) -> (r: Result<&'py PyAny, PyErr>) {
    py.import(name).map(|m| m.as_ref())
}

/// Relies on `Python::eval`: evaluates one expression, with at most one
/// local name bound.
#[verifier::external_body]
pub(crate) fn evaluate<'py>(py: Python<'py>, code: &str, local: Option<(&str, &'py PyAny)>) -> (r: Result<
    &'py PyAny,
    PyErr,
>) {
    let locals = local.map(|binding| [binding].into_py_dict(py));
    py.eval(code, None, locals)
}

/// Relies on `PyAny::getattr`: looks an attribute up by name.
#[verifier::external_body]
pub(crate) fn get_attr<'py>(obj: &'py PyAny, name: &str) -> (r: Result<&'py PyAny, PyErr>) {
    obj.getattr(name)
}

/// Relies on `PyAny::call1`: calls the object with the values as positional
/// arguments, in order.
#[verifier::external_body]
fn call_positional<'py>(f: &'py PyAny, args: &Vec<ForeignValue<'py>>) -> (r: Result<&'py PyAny, PyErr>) {
    f.call1(PyTuple::new(f.py(), args.iter().map(|a| a.obj)))
}

/// Relies on `PyAny::call`: calls the object with keyword arguments only.
#[verifier::external_body]
pub(crate) fn call_keywords<'py>(f: &'py PyAny, kwargs: &Vec<(String, i64)>) -> (r: Result<&'py PyAny, PyErr>) {
    let dict = kwargs.iter().map(|(k, v)| (k.as_str(), *v)).into_py_dict(f.py());
    f.call((), Some(dict))
}

/// Relies on `i64`'s `ToPyObject`: a foreign integer with the value `v`,
/// which the extracting functions below read back unchanged.
#[verifier::external_body]
fn int_to_foreign<'py>(py: Python<'py>, v: i64) -> (r: ForeignValue<'py>)
    ensures
        r.origin() == Some(HostValue::Int(v)),
{
    ForeignValue { obj: v.to_object(py).into_ref(py), origin: Ghost(Some(HostValue::Int(v))) }
}

/// Relies on `char`'s `ToPyObject`: a foreign string holding just `c`.
#[verifier::external_body]
fn char_to_foreign<'py>(py: Python<'py>, c: char) -> (r: ForeignValue<'py>)
    ensures
        r.origin() == Some(HostValue::Char(c)),
{
    ForeignValue { obj: c.to_object(py).into_ref(py), origin: Ghost(Some(HostValue::Char(c))) }
}

/// Relies on `str`'s `ToPyObject`: a foreign string with the characters of `s`.
#[verifier::external_body]
fn str_to_foreign<'py>(py: Python<'py>, s: &String) -> (r: ForeignValue<'py>)
    ensures
        r.origin() == Some(HostValue::Str(*s)),
{
    ForeignValue {
        obj: s.as_str().to_object(py).into_ref(py),
        origin: Ghost(Some(HostValue::Str(*s))),
    }
}

/// Relies on `PyAny::extract` into `i64`: a foreign integer made from an
/// `i64` reads back as that `i64`.
#[verifier::external_body]
fn extract_i64(v: &ForeignValue) -> (r: Result<i64, PyErr>)
    ensures
        v.origin() matches Some(HostValue::Int(n)) ==> r is Ok && r->Ok_0 == n,
{
    v.obj.extract::<i64>()
}

/// Relies on `PyAny::extract` into `i32`: a foreign integer made from an
/// `i64` within `i32`'s range reads back as that number.
#[verifier::external_body]
pub(crate) fn extract_i32(v: &ForeignValue) -> (r: Result<i32, PyErr>)
    ensures
        v.origin() matches Some(HostValue::Int(n)) ==> (i32::MIN <= n <= i32::MAX ==> r is Ok
            && r->Ok_0 == n as i32),
{
    v.obj.extract::<i32>()
}

/// Relies on `PyAny::extract` into `char`: a foreign string of length one;
/// one made from a `char` reads back as that `char`.
#[verifier::external_body]
fn extract_char(v: &ForeignValue) -> (r: Result<char, PyErr>)
    ensures
        v.origin() matches Some(HostValue::Char(c)) ==> r is Ok && r->Ok_0 == c,
{
    v.obj.extract::<char>()
}

/// Relies on `PyAny::extract` into `String`: a foreign string made from a
/// host string reads back with the same characters.
#[verifier::external_body]
fn extract_string(v: &ForeignValue) -> (r: Result<String, PyErr>)
    ensures
        v.origin() matches Some(HostValue::Str(s)) ==> r is Ok && r->Ok_0@ == s@,
{
    v.obj.extract::<String>()
}

/// Relies on `PyAny::extract` into `bool`.
#[verifier::external_body]
fn extract_bool(v: &ForeignValue) -> (r: Result<bool, PyErr>) {
    v.obj.extract::<bool>()
}

/// Relies on `PyErr::is_instance_of`, asked once for each category the
/// bridge tells apart.
#[verifier::external_body]
fn exception_flags(py: Python<'_>, e: &PyErr) -> (r: CategoryFlags) {
    CategoryFlags {
        syntax: e.is_instance_of::<pyo3::exceptions::PySyntaxError>(py),
        module_not_found: e.is_instance_of::<pyo3::exceptions::PyModuleNotFoundError>(py),
        type_error: e.is_instance_of::<pyo3::exceptions::PyTypeError>(py),
        value_error: e.is_instance_of::<pyo3::exceptions::PyValueError>(py),
        attribute: e.is_instance_of::<pyo3::exceptions::PyAttributeError>(py),
    }
}

/// Records a raised exception: its category by declared type, and its text.
pub(crate) fn failure_of(py: Python<'_>, e: PyErr) -> (f: ForeignFailure) {
    let flags = exception_flags(py, &e);
    failure_from(flags, e.to_string())
}

/// A value that could not be read back as the requested host type.
fn mismatch(e: PyErr) -> (h: HostError)
    ensures
        h.kind == ErrorKind::TypeMismatch,
{
    HostError { kind: ErrorKind::TypeMismatch, message: e.to_string() }
}

/// Host to foreign: one scalar, remembered as the object's origin.
pub fn to_foreign<'py>(py: Python<'py>, v: &HostValue) -> (r: ForeignValue<'py>)
    ensures
        r.origin() == Some(*v),
{
    match v {
        HostValue::Int(n) => int_to_foreign(py, *n),
        HostValue::Char(c) => char_to_foreign(py, *c),
        HostValue::Str(s) => str_to_foreign(py, s),
    }
}

/// Host to foreign: an ordered tuple of scalars, one for one and in order.
pub fn marshal_args<'py>(py: Python<'py>, args: &Vec<HostValue>) -> (r: Vec<ForeignValue<'py>>)
    ensures
        r.len() == args.len(),
        forall|i: int| 0 <= i < args.len() ==> (#[trigger] r@[i]).origin() == Some(args@[i]),
{
    let mut out: Vec<ForeignValue<'py>> = Vec::new();
    let mut i: usize = 0;
    while i < args.len()
        invariant
            i <= args.len(),
            out.len() == i,
            forall|j: int| 0 <= j < i ==> (#[trigger] out@[j]).origin() == Some(args@[j]),
        decreases args.len() - i,
    {
        out.push(to_foreign(py, &args[i]));
        i = i + 1;
    }
    out
}

/// Foreign to host: an `i64`; anything else is a type mismatch.
pub fn to_host_i64(obj: &ForeignValue) -> (r: Result<i64, HostError>)
    ensures
        r is Err ==> r->Err_0.kind == ErrorKind::TypeMismatch,
        obj.origin() matches Some(HostValue::Int(n)) ==> r is Ok && r->Ok_0 == n,
{
    match extract_i64(obj) {
        Ok(v) => Ok(v),
        Err(e) => Err(mismatch(e)),
    }
}

/// Foreign to host: an `i32`; anything else is a type mismatch.
pub fn to_host_i32(obj: &ForeignValue) -> (r: Result<i32, HostError>)
    ensures
        r is Err ==> r->Err_0.kind == ErrorKind::TypeMismatch,
        obj.origin() matches Some(HostValue::Int(n)) ==> (i32::MIN <= n <= i32::MAX ==> r is Ok
            && r->Ok_0 == n as i32),
{
    match extract_i32(obj) {
        Ok(v) => Ok(v),
        Err(e) => Err(mismatch(e)),
    }
}

/// Foreign to host: a `char`; anything else is a type mismatch.
pub fn to_host_char(obj: &ForeignValue) -> (r: Result<char, HostError>)
    ensures
        r is Err ==> r->Err_0.kind == ErrorKind::TypeMismatch,
        obj.origin() matches Some(HostValue::Char(c)) ==> r is Ok && r->Ok_0 == c,
{
    match extract_char(obj) {
        Ok(v) => Ok(v),
        Err(e) => Err(mismatch(e)),
    }
}

/// Foreign to host: a `String`; anything else is a type mismatch.
pub fn to_host_string(obj: &ForeignValue) -> (r: Result<String, HostError>)
    ensures
        r is Err ==> r->Err_0.kind == ErrorKind::TypeMismatch,
        obj.origin() matches Some(HostValue::Str(s)) ==> r is Ok && r->Ok_0@ == s@,
{
    match extract_string(obj) {
        Ok(v) => Ok(v),
        Err(e) => Err(mismatch(e)),
    }
}

/// Foreign to host: a `bool`; anything else is a type mismatch.
pub fn to_host_bool(obj: &ForeignValue) -> (r: Result<bool, HostError>)
    ensures
        r is Err ==> r->Err_0.kind == ErrorKind::TypeMismatch,
{
    match extract_bool(obj) {
        Ok(v) => Ok(v),
        Err(e) => Err(mismatch(e)),
    }
}

/// Whether two host values are the same scalar.
pub open spec fn same_value(a: HostValue, b: HostValue) -> bool {
    match (a, b) {
        (HostValue::Int(x), HostValue::Int(y)) => x == y,
        (HostValue::Char(x), HostValue::Char(y)) => x == y,
        (HostValue::Str(x), HostValue::Str(y)) => x@ == y@,
        _ => false,
    }
}

/// Marshals a host value into the interpreter and reads it back as the same
/// kind of scalar: the value comes back unchanged.
pub fn marshal_round_trip<'py>(py: Python<'py>, v: &HostValue) -> (r: Result<HostValue, HostError>)
    ensures
        r is Ok,
        same_value(r->Ok_0, *v),
{
    let f = to_foreign(py, v);
    match v {
        HostValue::Int(_) => match to_host_i64(&f) {
            Ok(n) => Ok(HostValue::Int(n)),
            Err(e) => Err(e),
        },
        HostValue::Char(_) => match to_host_char(&f) {
            Ok(c) => Ok(HostValue::Char(c)),
            Err(e) => Err(e),
        },
        HostValue::Str(_) => match to_host_string(&f) {
            Ok(s) => Ok(HostValue::Str(s)),
            Err(e) => Err(e),
        },
    }
}

/// Compiles source text into a named module inside the session.
pub fn compile_module<'py>(py: Python<'py>, code: &str, file_name: &str, module_name: &str) -> (r:
    Result<&'py PyAny, ForeignFailure>) {
    match module_from_code(py, code, file_name, module_name) {
        Ok(m) => Ok(m),
        Err(e) => Err(failure_of(py, e)),
    }
}

/// Resolves a function of a module by name; a miss is always "attribute not found".
pub fn resolve<'py>(module: &'py PyAny, name: &str) -> (r: Result<&'py PyAny, ForeignFailure>)
    ensures
        r is Err ==> r->Err_0.category == ForeignCategory::AttributeNotFound,
{
    match get_attr(module, name) {
        Ok(f) => Ok(f),
        Err(e) => Err(ForeignFailure { category: ForeignCategory::AttributeNotFound, message: e.to_string() }),
    }
}

/// Calls a resolved function with positional arguments.
pub fn call_function<'py>(py: Python<'py>, f: &'py PyAny, args: &Vec<HostValue>) -> (r: Result<
    &'py PyAny,
    ForeignFailure,
>) {
    let foreign_args = marshal_args(py, args);
    match call_positional(f, &foreign_args) {
        Ok(v) => Ok(v),
        Err(e) => Err(failure_of(py, e)),
    }
}

/// The step of an invocation at which the interpreter failed.
#[derive(Clone, Copy, Debug, PartialEq, Eq, Structural)]
pub enum Step {
    Compile,
    Lookup,
    Call,
    Read,
}

/// A failure together with the step that raised it.
#[derive(Clone, Debug, PartialEq, Eq)]
pub struct StepFailure {
    pub step: Step,
    pub failure: ForeignFailure,
}

/// A failed lookup is always filed as "attribute not found".
pub open spec fn step_consistent(s: StepFailure) -> bool {
    s.step == Step::Lookup ==> s.failure.category == ForeignCategory::AttributeNotFound
}

/// Compiles the source, resolves `function_name` in it and calls it; a
/// failure names the first step that failed.
pub fn invoke<'py>(
    py: Python<'py>,
    code: &str,
    file_name: &str,
    module_name: &str,
    function_name: &str,
    args: &Vec<HostValue>,
) -> (r: Result<&'py PyAny, StepFailure>)
    ensures
        r is Err ==> step_consistent(r->Err_0),
        r is Err ==> r->Err_0.step != Step::Read,
{
    let module = match compile_module(py, code, file_name, module_name) {
        Ok(m) => m,
        Err(failure) => return Err(StepFailure { step: Step::Compile, failure }),
    };
    let f = match resolve(module, function_name) {
        Ok(f) => f,
        Err(failure) => return Err(StepFailure { step: Step::Lookup, failure }),
    };
    match call_function(py, f, args) {
        Ok(v) => Ok(v),
        Err(failure) => Err(StepFailure { step: Step::Call, failure }),
    }
}

} // verus!
