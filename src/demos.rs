use vstd::prelude::*;
use pyo3::PyAny;
use pyo3::Python;
use crate::arguments::{
    add_numbers_args, example_arg_lists, example_keyword_sets, mismatched_add_args,
    random_number_args, text_args,
};
use crate::bridge::{enter, run_parity, run_sentinel, run_string};
use crate::error::{
    classified, classify_failure, host_error_of, read_mismatch, settle, settled, ErrorKind,
    ForeignCategory, ForeignFailure, HostError,
};
use crate::foreign::{
    call_function, call_keywords, compile_module, evaluate, extract_i32, failure_of, get_attr,
    import_module, resolve, step_consistent, to_host_i32, to_host_string, ForeignValue, HostValue,
    Step, StepFailure,
};
use crate::kwargs::{keys_unique, KeywordArgs};
use crate::optional::{parity_outcome, sentinel_result};
use crate::session::{gate_step, SessionGate};

verus! {

/// An error of a run that only calls the interpreter: a classified failure or
/// a result that could not be read back.
pub open spec fn run_error(e: HostError) -> bool {
    classified(e) || e.kind == ErrorKind::TypeMismatch
}

/// Turns a raised exception into a classified host error.
fn host_failure(py: Python<'_>, e: pyo3::PyErr) -> (h: HostError)
    ensures
        classified(h),
{
    let f = failure_of(py, e);
    let h = classify_failure(f);
    assert(h == host_error_of(f));
    h
}

/// Evaluates one inline expression that prints a greeting.
pub fn simple_inline_python_code(gate: &mut SessionGate) -> (r: Result<(), HostError>)
    requires
        old(gate).wf(),
    ensures
        gate_step(*old(gate), *final(gate)),
        old(gate).held() ==> r is Err,
        r is Err && !old(gate).held() ==> classified(r->Err_0),
{
    let job = |py: Python<'_>| -> (r: Result<(), HostError>)
        ensures
            r is Err ==> classified(r->Err_0),
        {
            match evaluate(py, "print('Hello, World!')", None) {
                Ok(_) => Ok(()),
                Err(e) => Err(host_failure(py, e)),
            }
        };
    match enter(gate, job) {
        Ok(r) => r,
        Err(e) => Err(e),
    }
}

/// The interpreter's version text and the current user's name, read through
/// two imported modules.
pub fn python_version_and_user(gate: &mut SessionGate) -> (r: Result<(String, String), HostError>)
    requires
        old(gate).wf(),
    ensures
        gate_step(*old(gate), *final(gate)),
        old(gate).held() ==> r is Err,
        r is Err && !old(gate).held() ==> run_error(r->Err_0),
{
    let job = |py: Python<'_>| -> (r: Result<(String, String), HostError>)
        ensures
            r is Err ==> run_error(r->Err_0),
        {
            let sys = match import_module(py, "sys") {
                Ok(m) => m,
                Err(e) => return Err(host_failure(py, e)),
            };
            let version_obj = match get_attr(sys, "version") {
                Ok(v) => v,
                Err(e) => return Err(host_failure(py, e)),
            };
            let version = to_host_string(&ForeignValue::returned(version_obj))?;
            let os = match import_module(py, "os") {
                Ok(m) => m,
                Err(e) => return Err(host_failure(py, e)),
            };
            let user_obj = match evaluate(
                py,
                "os.getenv('USER') or os.getenv('USERNAME') or 'Unknown'",
                Some(("os", os)),
            ) {
                Ok(v) => v,
                Err(e) => return Err(host_failure(py, e)),
            };
            let user = to_host_string(&ForeignValue::returned(user_obj))?;
            Ok((version, user))
        };
    match enter(gate, job) {
        Ok(r) => r,
        Err(e) => Err(e),
    }
}

/// Compiles a function that reports how it was called, and resolves it.
fn example_function<'py>(py: Python<'py>) -> (r: Result<&'py PyAny, ForeignFailure>) {
    let code = "def example(*args, **kwargs):\n    if args != ():\n        print('called with args', args)\n    if kwargs != {}:\n        print('called with kwargs', kwargs)\n    if args == () and kwargs == {}:\n        print('called with no arguments')\n";
    let module = compile_module(py, code, "", "")?;
    resolve(module, "example")
}

/// Calls a function without arguments, then twice with three positional
/// strings, as `example_arg_lists` gives them.
pub fn python_function_with_args(gate: &mut SessionGate) -> (r: Result<(), HostError>)
    requires
        old(gate).wf(),
    ensures
        gate_step(*old(gate), *final(gate)),
        old(gate).held() ==> r is Err,
        r is Err && !old(gate).held() ==> classified(r->Err_0),
{
    let job = |py: Python<'_>| -> (r: Result<(), HostError>)
        ensures
            r is Err ==> classified(r->Err_0),
        {
            let f = match example_function(py) {
                Ok(f) => f,
                Err(fail) => return Err(classify_failure(fail)),
            };
            let lists = example_arg_lists();
            let mut round: usize = 0;
            while round < lists.len()
                invariant
                    round <= lists.len(),
                decreases lists.len() - round,
            {
                if let Err(fail) = call_function(py, f, &lists[round]) {
                    return Err(classify_failure(fail));
                }
                round = round + 1;
            }
            Ok(())
        };
    match enter(gate, job) {
        Ok(r) => r,
        Err(e) => Err(e),
    }
}

/// Calls a function with keyword arguments only.
pub fn call_with_keywords<'py>(py: Python<'py>, f: &'py PyAny, kwargs: &KeywordArgs) -> (r: Result<
    &'py PyAny,
    HostError,
>)
    ensures
        r is Err ==> classified(r->Err_0),
{
    match call_keywords(f, kwargs.pairs()) {
        Ok(v) => Ok(v),
        Err(e) => Err(host_failure(py, e)),
    }
}

/// Calls a function with each of the keyword sets of `example_keyword_sets`;
/// none repeats a name, so the library itself refuses none of them.
pub fn python_function_with_kwargs(gate: &mut SessionGate) -> (r: Result<(), HostError>)
    requires
        old(gate).wf(),
    ensures
        gate_step(*old(gate), *final(gate)),
        old(gate).held() ==> r is Err,
        r is Err && !old(gate).held() ==> classified(r->Err_0),
{
    let job = |py: Python<'_>| -> (r: Result<(), HostError>)
        ensures
            r is Err ==> classified(r->Err_0),
        {
            let f = match example_function(py) {
                Ok(f) => f,
                Err(fail) => return Err(classify_failure(fail)),
            };
            let mut sets = example_keyword_sets();
            while sets.len() > 0
                invariant
                    forall|k: int| 0 <= k < sets@.len() ==> keys_unique(#[trigger] sets@[k]@),
                decreases sets.len(),
            {
                let set = sets.remove(0);
                let kwargs = match KeywordArgs::from_pairs(set) {
                    Ok(k) => k,
                    Err(e) => {
                        assert(false);
                        return Err(e);
                    },
                };
                call_with_keywords(py, f, &kwargs)?;
            }
            Ok(())
        };
    match enter(gate, job) {
        Ok(r) => r,
        Err(e) => Err(e),
    }
}

/// Compiles a script once and calls its `add_numbers` with the default
/// arguments and then with `args`, reading the second result as an `i32`.
fn add_numbers_with<'py>(py: Python<'py>, code: &str, args: &Vec<HostValue>) -> (c: Result<
    Result<i32, HostError>,
    ForeignFailure,
>)
    ensures
        read_mismatch(c),
{
    let module = compile_module(py, code, "functions.py", "functions")?;
    let f = resolve(module, "add_numbers")?;
    let no_args: Vec<HostValue> = Vec::new();
    call_function(py, f, &no_args)?;
    let v = call_function(py, f, args)?;
    Ok(to_host_i32(&ForeignValue::returned(v)))
}

/// Runs `add_numbers` of a script with `args` inside the session.
fn run_add_numbers(gate: &mut SessionGate, code: &str, args: &Vec<HostValue>) -> (r: Result<
    i32,
    HostError,
>)
    requires
        old(gate).wf(),
    ensures
        gate_step(*old(gate), *final(gate)),
        old(gate).held() ==> r is Err,
        !old(gate).held() ==> exists|call: Result<Result<i32, HostError>, ForeignFailure>|
            read_mismatch(call) && r == #[trigger] settled(call),
{
    let job = |py: Python<'_>| -> (c: Result<Result<i32, HostError>, ForeignFailure>)
        ensures
            read_mismatch(c),
        { add_numbers_with(py, code, args) };
    match enter(gate, job) {
        Ok(call) => settle(call),
        Err(e) => Err(e),
    }
}

/// Adds the numbers of `add_numbers_args` with a function defined in the
/// script text.
pub fn python_function_from_file(gate: &mut SessionGate, code: &str) -> (r: Result<i32, HostError>)
    requires
        old(gate).wf(),
    ensures
        gate_step(*old(gate), *final(gate)),
        old(gate).held() ==> r is Err,
        !old(gate).held() ==> exists|call: Result<Result<i32, HostError>, ForeignFailure>|
            read_mismatch(call) && r == #[trigger] settled(call),
{
    let args = add_numbers_args();
    run_add_numbers(gate, code, &args)
}

/// Hands the adding function the two characters of `mismatched_add_args`:
/// a failure is classified, and a result that is not an integer is a type
/// mismatch.
pub fn python_function_err_handling(gate: &mut SessionGate, code: &str) -> (r: Result<
    i32,
    HostError,
>)
    requires
        old(gate).wf(),
    ensures
        gate_step(*old(gate), *final(gate)),
        old(gate).held() ==> r is Err,
        !old(gate).held() ==> exists|call: Result<Result<i32, HostError>, ForeignFailure>|
            read_mismatch(call) && r == #[trigger] settled(call),
{
    let args = mismatched_add_args();
    run_add_numbers(gate, code, &args)
}

/// Runs `emoji_test` for its output, whatever it does, then calls
/// `random_number` with the limits 10 and 20. What `emoji_test` does never
/// reaches the result.
fn emoji_then_random<'py>(py: Python<'py>, code: &str) -> (r: Result<&'py PyAny, StepFailure>)
    ensures
        r is Err ==> step_consistent(r->Err_0) && r->Err_0.step != Step::Read,
{
    let module = match compile_module(py, code, "functions.py", "functions") {
        Ok(m) => m,
        Err(failure) => return Err(StepFailure { step: Step::Compile, failure }),
    };
    let no_args: Vec<HostValue> = Vec::new();
    if let Ok(emoji) = resolve(module, "emoji_test") {
        let _ = call_function(py, emoji, &no_args);
    }
    let random = match resolve(module, "random_number") {
        Ok(f) => f,
        Err(failure) => return Err(StepFailure { step: Step::Lookup, failure }),
    };
    let limits = random_number_args(20, 10);
    match call_function(py, random, &limits) {
        Ok(v) => Ok(v),
        Err(failure) => Err(StepFailure { step: Step::Call, failure }),
    }
}

/// The random-number step of a script, read as an `i32`; a failure names
/// the first step that failed.
fn random_step<'py>(py: Python<'py>, code: &str) -> (r: Result<i32, StepFailure>)
    ensures
        r is Err ==> step_consistent(r->Err_0),
{
    let v = emoji_then_random(py, code)?;
    match extract_i32(&ForeignValue::returned(v)) {
        Ok(n) => Ok(n),
        Err(e) => Err(StepFailure { step: Step::Read, failure: failure_of(py, e) }),
    }
}

/// How the outcome of the random-number step is handed back unclassified:
/// the number, or the failure of the first step that failed, with its
/// category and text unchanged.
pub open spec fn failure_kept(c: Result<i32, StepFailure>, r: Result<i32, ForeignFailure>) -> bool {
    match c {
        Ok(n) => r == Ok::<i32, ForeignFailure>(n),
        Err(s) => step_consistent(s) && r == Err::<i32, ForeignFailure>(s.failure),
    }
}

/// A random number from the script, with failures left as the interpreter
/// reported them. Whatever `emoji_test` does, the result is that of the
/// random-number step.
pub fn python_function_venv_a(gate: &mut SessionGate, code: &str) -> (r: Result<i32, ForeignFailure>)
    requires
        old(gate).wf(),
    ensures
        gate_step(*old(gate), *final(gate)),
        old(gate).held() ==> r is Err,
        !old(gate).held() ==> exists|c: Result<i32, StepFailure>| #[trigger] failure_kept(c, r),
{
    let job = |py: Python<'_>| -> (c: Result<i32, StepFailure>)
        ensures
            c is Err ==> step_consistent(c->Err_0),
        { random_step(py, code) };
    match enter(gate, job) {
        Ok(c) => {
            let r = match c {
                Ok(n) => Ok(n),
                Err(s) => Err(s.failure),
            };
            assert(failure_kept(c, r));
            r
        },
        Err(e) => Err(ForeignFailure { category: ForeignCategory::Unspecified, message: e.message }),
    }
}

/// A random number from the script, with failures classified.
pub fn python_function_venv_b(gate: &mut SessionGate, code: &str) -> (r: Result<i32, HostError>)
    requires
        old(gate).wf(),
    ensures
        gate_step(*old(gate), *final(gate)),
        old(gate).held() ==> r is Err,
        !old(gate).held() ==> exists|call: Result<Result<i32, HostError>, ForeignFailure>|
            read_mismatch(call) && r == #[trigger] settled(call),
{
    let job = |py: Python<'_>| -> (c: Result<Result<i32, HostError>, ForeignFailure>)
        ensures
            read_mismatch(c),
        {
            match emoji_then_random(py, code) {
                Ok(v) => Ok(to_host_i32(&ForeignValue::returned(v))),
                Err(s) => Err(s.failure),
            }
        };
    match enter(gate, job) {
        Ok(call) => settle(call),
        Err(e) => Err(e),
    }
}

/// The emoji for a colour name, read with the sentinel convention.
pub fn python_function_venv_c(gate: &mut SessionGate, code: &str, color_name: &str) -> (r: Result<
    Option<char>,
    HostError,
>)
    requires
        old(gate).wf(),
    ensures
        gate_step(*old(gate), *final(gate)),
        old(gate).held() ==> r is Err,
        !old(gate).held() ==> exists|call: Result<Result<char, HostError>, ForeignFailure>|
            read_mismatch(call) && r == sentinel_result(#[trigger] settled(call)),
{
    let args = text_args(color_name);
    run_sentinel(gate, code, "color_emoji", &args)
}

/// A random number between the limits, kept and doubled when odd.
pub fn python_function_venv_d(
    gate: &mut SessionGate,
    code: &str,
    upper_limit: i32,
    lower_limit: i32,
) -> (r: Result<Option<i32>, HostError>)
    requires
        old(gate).wf(),
    ensures
        gate_step(*old(gate), *final(gate)),
        old(gate).held() ==> r is Err,
        !old(gate).held() ==> exists|call: Result<Result<i32, HostError>, ForeignFailure>|
            read_mismatch(call) && parity_outcome(#[trigger] settled(call), r),
{
    let args = random_number_args(upper_limit, lower_limit);
    run_parity(gate, code, "random_number", &args)
}

/// Asks the speech script to synthesise `text`; the result is the path of
/// the audio file it wrote.
pub fn call_polly(gate: &mut SessionGate, code: &str, text: &str) -> (r: Result<String, HostError>)
    requires
        old(gate).wf(),
    ensures
        gate_step(*old(gate), *final(gate)),
        old(gate).held() ==> r is Err,
        !old(gate).held() ==> exists|call: Result<Result<String, HostError>, ForeignFailure>|
            read_mismatch(call) && r == #[trigger] settled(call),
{
    let args = text_args(text);
    run_string(gate, code, "polly_demo", &args)
}

} // verus!
