use vstd::prelude::*;
use crate::error::{ErrorKind, HostError};

verus! {

/// The character a foreign function returns to mean "no value". The
/// convention is ambiguous: a function whose real answer is this character
/// cannot be told apart from one that has no answer, and reads as absent.
pub const ABSENT_MARK: char = '0';

/// Largest magnitude that the parity overlay can still double within `i32`.
pub const DOUBLING_BOUND: i32 = 0x3fff_ffff;

/// Sentinel convention: the reserved mark is absence, any other character is present.
pub open spec fn sentinel_spec(c: char) -> Option<char> {
    if c == ABSENT_MARK {
        None
    } else {
        Some(c)
    }
}

/// Parity convention: an odd number is present, an even one is absent.
pub open spec fn parity_spec(n: i32) -> Option<i32> {
    if n % 2 != 0 {
        Some(n)
    } else {
        None
    }
}

/// Whether a present value can be doubled without leaving `i32`.
pub open spec fn doubling_fits(o: Option<i32>) -> bool {
    match o {
        Some(n) => -DOUBLING_BOUND <= n <= DOUBLING_BOUND,
        None => true,
    }
}

/// The overlay's post-transform: a present value is doubled, absence stays.
pub open spec fn doubled_spec(o: Option<i32>) -> Option<i32> {
    match o {
        Some(n) => Some((2 * n) as i32),
        None => None,
    }
}

/// The sentinel convention on a raw foreign result; failures pass unchanged.
pub open spec fn sentinel_result(raw: Result<char, HostError>) -> Result<Option<char>, HostError> {
    match raw {
        Ok(c) => Ok(sentinel_spec(c)),
        Err(e) => Err(e),
    }
}

/// The parity overlay on a raw foreign result: an odd number comes back
/// doubled, an even one as absent, a failure unchanged, and an odd number
/// too large to double as an error of kind `Other`.
pub open spec fn parity_outcome(raw: Result<i32, HostError>, r: Result<Option<i32>, HostError>) -> bool {
    match raw {
        Ok(n) => if doubling_fits(parity_spec(n)) {
            r == Ok::<Option<i32>, HostError>(doubled_spec(parity_spec(n)))
        } else {
            r is Err && r->Err_0.kind == ErrorKind::Other
        },
        Err(e) => r == Err::<Option<i32>, HostError>(e),
    }
}

/// Reads a sentinel-encoded optional character.
pub fn from_sentinel(c: char) -> (r: Option<char>)
    ensures
        r == sentinel_spec(c),
        r is None <==> c == ABSENT_MARK,
        r is Some ==> r == Some(c),
{
    if c == ABSENT_MARK {
        None
    } else {
        Some(c)
    }
}

/// Reads a presence/accessor optional: `get` runs only when `present` holds.
pub fn from_presence<T, F: FnOnce() -> Result<T, HostError>>(present: bool, get: F) -> (r:
    Result<Option<T>, HostError>)
    requires
        present ==> get.requires(()),
    ensures
        !present ==> r == Ok::<Option<T>, HostError>(None),
        present ==> exists|g: Result<T, HostError>|
            {
                &&& get.ensures((), g)
                &&& match g {
                    Ok(v) => r == Ok::<Option<T>, HostError>(Some(v)),
                    Err(e) => r == Err::<Option<T>, HostError>(e),
                }
            },
{
    if present {
        match get() {
            Ok(v) => Ok(Some(v)),
            Err(e) => Err(e),
        }
    } else {
        Ok(None)
    }
}

/// Applies the parity overlay to a number returned by a foreign call.
pub fn odd_or_none(n: i32) -> (r: Option<i32>)
    ensures
        r == parity_spec(n),
{
    if n & 1 == 1 {
        assert(n % 2 != 0) by (bit_vector)
            requires
                n & 1 == 1,
        ;
        Some(n)
    } else {
        assert(n % 2 == 0) by (bit_vector)
            requires
                n & 1 != 1,
        ;
        None
    }
}

/// Doubles a present value; absence passes through.
pub fn double_present(o: Option<i32>) -> (r: Option<i32>)
    requires
        doubling_fits(o),
    ensures
        r == doubled_spec(o),
{
    match o {
        Some(n) => Some(2 * n),
        None => None,
    }
}

/// The full parity overlay on a raw foreign result: odd numbers come back
/// doubled, even ones as absent, failures unchanged. An odd number too large
/// to double within `i32` is reported as an error instead of wrapping.
pub fn finish_parity(raw: Result<i32, HostError>) -> (r: Result<Option<i32>, HostError>)
    ensures
        parity_outcome(raw, r),
{
    match raw {
        Ok(n) => {
            let odd = odd_or_none(n);
            if n < -DOUBLING_BOUND || n > DOUBLING_BOUND {
                if odd.is_some() {
                    return Err(
                        HostError {
                            kind: ErrorKind::Other,
                            message: "doubled value does not fit in i32".to_owned(),
                        },
                    );
                }
            }
            Ok(double_present(odd))
        },
        Err(e) => Err(e),
    }
}

/// The sentinel convention on a raw foreign result; failures pass unchanged.
pub fn finish_sentinel(raw: Result<char, HostError>) -> (r: Result<Option<char>, HostError>)
    ensures
        r == sentinel_result(raw),
{
    match raw {
        Ok(c) => Ok(from_sentinel(c)),
        Err(e) => Err(e),
    }
}

/// Every foreign optional state maps to exactly one host optional state: a
/// sentinel character is absent exactly when it is the reserved mark and
/// otherwise present with itself, an absent presence object is absent, and
/// an odd number is present while an even one is absent.
pub proof fn lemma_optional_totality(c: char, n: i32)
    ensures
        sentinel_spec(c) is None <==> c == ABSENT_MARK,
        sentinel_spec(c) is Some <==> sentinel_spec(c) == Some(c),
        sentinel_spec(c) is None != sentinel_spec(c) is Some,
        parity_spec(n) is None <==> n % 2 == 0,
        parity_spec(n) is Some <==> parity_spec(n) == Some(n),
{
}

} // verus!
