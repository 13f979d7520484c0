use vstd::prelude::*;
use pyo3::PyAny;
use pyo3::Python;
use crate::error::{
    classify_failure, host_error_of, read_mismatch, settle, settled, ForeignFailure, HostError,
};
use crate::foreign::{
    call_function, failure_of, get_attr, invoke, to_host_bool, to_host_char, to_host_i32,
    to_host_string, with_session, ForeignValue, HostValue,
};
use crate::optional::{finish_parity, finish_sentinel, from_presence, parity_outcome, sentinel_result};
use crate::session::{gate_step, SessionGate};

verus! {

/// Calls a script function and reads its result as an `i32`.
pub fn call_i32_in<'py>(
    py: Python<'py>,
    code: &str,
    function_name: &str,
    args: &Vec<HostValue>,
) -> (c: Result<Result<i32, HostError>, ForeignFailure>)
    ensures
        read_mismatch(c),
{
    match invoke(py, code, "functions.py", "functions", function_name, args) {
        Ok(v) => Ok(to_host_i32(&ForeignValue::returned(v))),
        Err(s) => Err(s.failure),
    }
}

/// Calls a script function and reads its result as a `char`.
pub fn call_char_in<'py>(
    py: Python<'py>,
    code: &str,
    function_name: &str,
    args: &Vec<HostValue>,
) -> (c: Result<Result<char, HostError>, ForeignFailure>)
    ensures
        read_mismatch(c),
{
    match invoke(py, code, "functions.py", "functions", function_name, args) {
        Ok(v) => Ok(to_host_char(&ForeignValue::returned(v))),
        Err(s) => Err(s.failure),
    }
}

/// Calls a script function and reads its result as a `String`.
pub fn call_string_in<'py>(
    py: Python<'py>,
    code: &str,
    function_name: &str,
    args: &Vec<HostValue>,
) -> (c: Result<Result<String, HostError>, ForeignFailure>)
    ensures
        read_mismatch(c),
{
    match invoke(py, code, "functions.py", "functions", function_name, args) {
        Ok(v) => Ok(to_host_string(&ForeignValue::returned(v))),
        Err(s) => Err(s.failure),
    }
}

/// Calls a method of a foreign object without arguments.
fn call_method0<'py>(py: Python<'py>, obj: &'py PyAny, name: &str) -> (r: Result<
    &'py PyAny,
    HostError,
>)
    ensures
        r is Err ==> exists|f: ForeignFailure| r->Err_0 == host_error_of(f),
{
    match get_attr(obj, name) {
        Ok(m) => {
            let no_args: Vec<HostValue> = Vec::new();
            match call_function(py, m, &no_args) {
                Ok(v) => Ok(v),
                Err(f) => Err(classify_failure(f)),
            }
        },
        Err(e) => Err(classify_failure(failure_of(py, e))),
    }
}

/// How a presence/accessor object's answer becomes an optional: an absent
/// object is `None` without `get` being asked, a failed query is its error,
/// and a present one is whatever `get` gave.
pub open spec fn presence_outcome(flag: Result<bool, HostError>, r: Result<Option<char>, HostError>) -> bool {
    match flag {
        Err(e) => r == Err::<Option<char>, HostError>(e),
        Ok(false) => r == Ok::<Option<char>, HostError>(None),
        Ok(true) => r is Err || (r is Ok && r->Ok_0 is Some),
    }
}

/// Reads a foreign presence/accessor optional: asks `is_present` first and
/// calls `get` only when it answered true. An object without these methods
/// gives an error, never a made-up value.
pub fn extract_py_emoji_optional_output<'py>(py: Python<'py>, obj: &'py PyAny) -> (r: Result<
    Option<char>,
    HostError,
>)
    ensures
        exists|flag: Result<bool, HostError>| #[trigger] presence_outcome(flag, r),
{
    let flag = match call_method0(py, obj, "is_present") {
        Ok(v) => to_host_bool(&ForeignValue::returned(v)),
        Err(e) => Err(e),
    };
    let present = match flag {
        Ok(b) => b,
        Err(e) => {
            assert(presence_outcome(flag, Err(e)));
            return Err(e);
        },
    };
    let get = move || -> Result<char, HostError>
        {
            match call_method0(py, obj, "get") {
                Ok(v) => to_host_char(&ForeignValue::returned(v)),
                Err(e) => Err(e),
            }
        };
    let r = from_presence(present, get);
    assert(presence_outcome(flag, r));
    r
}

/// Runs `job` in the interpreter session, taking the session through `gate`
/// and giving it back on every path; a session that is already held is not
/// entered.
pub fn enter<R, F>(gate: &mut SessionGate, job: F) -> (r: Result<R, HostError>) where
    F: for <'py>FnOnce(Python<'py>) -> R,

    requires
        old(gate).wf(),
        forall|py: Python<'_>| job.requires((py,)),
    ensures
        gate_step(*old(gate), *final(gate)),
        old(gate).held() ==> r is Err,
        !old(gate).held() ==> r is Ok && exists|py: Python<'_>| job.ensures((py,), r->Ok_0),
{
    match gate.acquire() {
        Ok(()) => {
            let v = with_session(job);
            gate.release();
            let r: Result<R, HostError> = Ok(v);
            assert(r->Ok_0 == v);
            r
        },
        Err(e) => Err(e),
    }
}

/// Runs a script function whose result uses the sentinel convention, holding
/// the session for the whole call.
pub fn run_sentinel(
    gate: &mut SessionGate,
    code: &str,
    function_name: &str,
    args: &Vec<HostValue>,
) -> (r: Result<Option<char>, HostError>)
    requires
        old(gate).wf(),
    ensures
        gate_step(*old(gate), *final(gate)),
        old(gate).held() ==> r is Err,
        !old(gate).held() ==> exists|call: Result<Result<char, HostError>, ForeignFailure>|
            read_mismatch(call) && r == sentinel_result(#[trigger] settled(call)),
{
    let job = |py: Python<'_>| -> (c: Result<Result<char, HostError>, ForeignFailure>)
        ensures
            read_mismatch(c),
        { call_char_in(py, code, function_name, args) };
    match enter(gate, job) {
        Ok(call) => finish_sentinel(settle(call)),
        Err(e) => Err(e),
    }
}

/// What a run of a function returning a presence/accessor object can give:
/// a classified interpreter failure, or the reading of the returned object.
pub open spec fn presence_run(r: Result<Option<char>, HostError>) -> bool {
    (r is Err && exists|f: ForeignFailure| r->Err_0 == #[trigger] host_error_of(f))
        || exists|flag: Result<bool, HostError>| #[trigger] presence_outcome(flag, r)
}

/// Runs a script function whose result is a presence/accessor object.
pub fn run_presence(
    gate: &mut SessionGate,
    code: &str,
    function_name: &str,
    args: &Vec<HostValue>,
) -> (r: Result<Option<char>, HostError>)
    requires
        old(gate).wf(),
    ensures
        gate_step(*old(gate), *final(gate)),
        old(gate).held() ==> r is Err,
        !old(gate).held() ==> presence_run(r),
{
    let job = |py: Python<'_>| -> (r: Result<Option<char>, HostError>)
        ensures
            presence_run(r),
        {
            match invoke(py, code, "functions.py", "functions", function_name, args) {
                Ok(v) => extract_py_emoji_optional_output(py, v),
                Err(s) => {
                    let e = classify_failure(s.failure);
                    assert(e == host_error_of(s.failure));
                    Err(e)
                },
            }
        };
    match enter(gate, job) {
        Ok(r) => r,
        Err(e) => Err(e),
    }
}

/// Runs a script function returning an integer and applies the parity
/// overlay: odd results come back doubled, even ones as absent.
pub fn run_parity(
    gate: &mut SessionGate,
    code: &str,
    function_name: &str,
    args: &Vec<HostValue>,
) -> (r: Result<Option<i32>, HostError>)
    requires
        old(gate).wf(),
    ensures
        gate_step(*old(gate), *final(gate)),
        old(gate).held() ==> r is Err,
        !old(gate).held() ==> exists|call: Result<Result<i32, HostError>, ForeignFailure>|
            read_mismatch(call) && parity_outcome(#[trigger] settled(call), r),
{
    let job = |py: Python<'_>| -> (c: Result<Result<i32, HostError>, ForeignFailure>)
        ensures
            read_mismatch(c),
        { call_i32_in(py, code, function_name, args) };
    match enter(gate, job) {
        Ok(call) => finish_parity(settle(call)),
        Err(e) => Err(e),
    }
}

/// Runs a script function and reads its result as a `String`.
pub fn run_string(
    gate: &mut SessionGate,
    code: &str,
    function_name: &str,
    args: &Vec<HostValue>,
) -> (r: Result<String, HostError>)
    requires
        old(gate).wf(),
    ensures
        gate_step(*old(gate), *final(gate)),
        old(gate).held() ==> r is Err,
        !old(gate).held() ==> exists|call: Result<Result<String, HostError>, ForeignFailure>|
            read_mismatch(call) && r == #[trigger] settled(call),
{
    let job = |py: Python<'_>| -> (c: Result<Result<String, HostError>, ForeignFailure>)
        ensures
            read_mismatch(c),
        { call_string_in(py, code, function_name, args) };
    match enter(gate, job) {
        Ok(call) => settle(call),
        Err(e) => Err(e),
    }
}

} // verus!
