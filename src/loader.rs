use vstd::prelude::*;
use crate::error::{ErrorKind, HostError};

verus! {

/// What the file system reported about a path before it is read.
#[derive(Clone, Copy, Debug, PartialEq, Eq, Structural)]
pub struct PathProbe {
    pub exists: bool,
    pub is_file: bool,
}

/// The extension of a path, as the standard path type splits it off.
pub uninterp spec fn extension_of(path: Seq<char>) -> Option<Seq<char>>;

/// Relies on `std::path::Path::extension`: the text after the last dot of the
/// final component, absent where that component has none.
#[verifier::external_body]
fn path_extension(path: &str) -> (r: Option<String>)
    ensures
        match r {
            Some(e) => extension_of(path@) == Some(e@),
            None => extension_of(path@) is None,
        },
{
    match std::path::Path::new(path).extension() {
        Some(e) => e.to_str().map(String::from),
        None => None,
    }
}

/// Why a path was turned away, in the order the checks run.
pub open spec fn path_verdict(path: Seq<char>, probe: PathProbe) -> Option<ErrorKind> {
    if !probe.exists {
        Some(ErrorKind::NotFound)
    } else if !probe.is_file {
        Some(ErrorKind::InvalidInput)
    } else if extension_of(path) != Some("py"@) {
        Some(ErrorKind::InvalidInput)
    } else {
        None
    }
}

/// Whether a path ends in the script extension.
pub fn has_script_extension(path: &str) -> (r: bool)
    ensures
        r == (extension_of(path@) == Some("py"@)),
{
    let expected = "py".to_owned();
    match path_extension(path) {
        Some(e) => e == expected,
        None => false,
    }
}

/// Checks, in order, that the path exists, is a regular file and carries the
/// script extension.
pub fn validate_py_path(path: &str, probe: PathProbe) -> (r: Result<(), HostError>)
    ensures
        match path_verdict(path@, probe) {
            None => r is Ok,
            Some(k) => r is Err && r->Err_0.kind == k,
        },
        !probe.exists ==> r is Err && r->Err_0.message@ == "Path does not exist"@,
        probe.exists && !probe.is_file ==> r is Err && r->Err_0.message@
            == "Path does not lead to a file (maybe a directory?)"@,
        probe.exists && probe.is_file && extension_of(path@) != Some("py"@) ==> r is Err
            && r->Err_0.message@ == "Invalid file extension"@,
{
    if !probe.exists {
        return Err(
            HostError { kind: ErrorKind::NotFound, message: "Path does not exist".to_owned() },
        );
    }
    if !probe.is_file {
        return Err(
            HostError {
                kind: ErrorKind::InvalidInput,
                message: "Path does not lead to a file (maybe a directory?)".to_owned(),
            },
        );
    }
    if !has_script_extension(path) {
        return Err(
            HostError { kind: ErrorKind::InvalidInput, message: "Invalid file extension".to_owned() },
        );
    }
    Ok(())
}

/// How the outcome of reading a file becomes the loader's answer: read
/// failures pass through with their own kind, an empty text is refused,
/// anything else is the source.
pub open spec fn accepted(read: Result<String, HostError>, r: Result<String, HostError>) -> bool {
    match read {
        Ok(s) => if s@.len() == 0 {
            r is Err && r->Err_0.kind == ErrorKind::InvalidInput && r->Err_0.message@
                == "Py file was empty..."@
        } else {
            r == Ok::<String, HostError>(s)
        },
        Err(e) => r == Err::<String, HostError>(e),
    }
}

/// Accepts the outcome of reading the file.
pub fn accept_source(read: Result<String, HostError>) -> (r: Result<String, HostError>)
    ensures
        accepted(read, r),
{
    match read {
        Ok(s) => {
            if s.as_str().is_empty() {
                Err(
                    HostError {
                        kind: ErrorKind::InvalidInput,
                        message: "Py file was empty...".to_owned(),
                    },
                )
            } else {
                Ok(s)
            }
        },
        Err(e) => Err(e),
    }
}

/// Loads script source: the path checks run first, and `read` is called
/// only for a path that passed them.
pub fn load_source<F: FnOnce() -> Result<String, HostError>>(
    path: &str,
    probe: PathProbe,
    read: F,
) -> (r: Result<String, HostError>)
    requires
        path_verdict(path@, probe) is None ==> read.requires(()),
    ensures
        match path_verdict(path@, probe) {
            Some(k) => r is Err && r->Err_0.kind == k,
            None => exists|got: Result<String, HostError>| read.ensures((), got) && accepted(got, r),
        },
        !probe.exists ==> r is Err && r->Err_0.message@ == "Path does not exist"@,
        probe.exists && !probe.is_file ==> r is Err && r->Err_0.message@
            == "Path does not lead to a file (maybe a directory?)"@,
        probe.exists && probe.is_file && extension_of(path@) != Some("py"@) ==> r is Err
            && r->Err_0.message@ == "Invalid file extension"@,
{
    validate_py_path(path, probe)?;
    let got = read();
    accept_source(got)
}

/// The loader's checks run in a fixed order: a missing path is not found
/// whatever else holds, an existing non-file is invalid input whatever its
/// name, and only an existing script file gets past the path checks.
pub proof fn lemma_validation_order(path: Seq<char>, probe: PathProbe)
    ensures
        !probe.exists ==> path_verdict(path, probe) == Some(ErrorKind::NotFound),
        probe.exists && !probe.is_file ==> path_verdict(path, probe) == Some(
            ErrorKind::InvalidInput,
        ),
        path_verdict(path, probe) is None <==> (probe.exists && probe.is_file && extension_of(path)
            == Some("py"@)),
{
}

} // verus!
