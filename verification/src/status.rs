//! Status codes and their two-way mapping to `Result`.
//!
//! A status code is a signed 32-bit value: zero and above mean success,
//! below zero means failure. Decoding keeps a failure's code, so encoding
//! the decoded value gives the failure code back.

use vstd::prelude::*;

verus! {

/// What a status code decodes to: success, or the code of the failure.
pub open spec fn decoded(code: i32) -> Result<(), i32> {
    if code >= 0 {
        Ok(())
    } else {
        Err(code)
    }
}

/// The status code that stands for an outcome: zero for success, the
/// failure's own code otherwise.
pub open spec fn encoded(outcome: Result<(), i32>) -> i32 {
    match outcome {
        Ok(_) => 0,
        Err(code) => code,
    }
}

/// An outcome is valid when its failure, if any, carries a failure code.
pub open spec fn valid_outcome(outcome: Result<(), i32>) -> bool {
    outcome matches Err(code) ==> code < 0
}

/// The outcome that a closure result stands for.
pub open spec fn outcome_of(result: Result<(), Failure>) -> Result<(), i32> {
    match result {
        Ok(_) => Ok(()),
        Err(failure) => Err(failure@),
    }
}

/// What a status code decodes to is a valid outcome.
pub proof fn lemma_decoded_is_valid(code: i32)
    ensures
        valid_outcome(decoded(code)),
{
}

/// Decoding a status code, encoding what came out and decoding again gives
/// what the first decoding gave.
pub proof fn lemma_decode_is_idempotent(code: i32)
    ensures
        decoded(encoded(decoded(code))) == decoded(code),
{
}

/// Encoding is the inverse of decoding on valid outcomes: a valid outcome,
/// encoded and decoded again, is the same outcome.
pub proof fn lemma_encode_then_decode(outcome: Result<(), i32>)
    requires
        valid_outcome(outcome),
    ensures
        decoded(encoded(outcome)) == outcome,
{
    if let Ok(unit) = outcome {
        assert(unit == ());
    }
}

/// A failure code survives decoding and encoding unchanged; a success code
/// comes back as zero.
pub proof fn lemma_decode_then_encode(code: i32)
    ensures
        code < 0 ==> encoded(decoded(code)) == code,
        code >= 0 ==> encoded(decoded(code)) == 0,
{
}

/// A status code as it crosses the foreign boundary.
#[derive(Clone, Copy, Debug, PartialEq, Eq, Structural)]
pub struct StatusCode(pub i32);

/// A decoded failure. It always carries a failure code, that is a negative
/// value.
#[derive(Clone, Copy, Debug, PartialEq, Eq)]
pub struct Failure {
    code: i32,
}

impl View for Failure {
    type V = i32;

    closed spec fn view(&self) -> i32 {
        self.code
    }
}

impl Failure {
    #[verifier::type_invariant]
    spec fn carries_failure_code(self) -> bool {
        self.code < 0
    }

    /// A failure is its code and nothing more: two failures with the same
    /// code are the same failure.
    pub proof fn lemma_same_code(self, other: Failure)
        requires
            self@ == other@,
        ensures
            self == other,
    {
    }

    /// The failure with the given code, if the code denotes a failure.
    pub fn new(code: i32) -> (failure: Option<Failure>)
        ensures
            code < 0 <==> failure is Some,
            failure matches Some(f) ==> f@ == code,
    {
        if code < 0 {
            Some(Failure { code })
        } else {
            None
        }
    }

    /// The failure's status code.
    pub fn code(&self) -> (code: i32)
        ensures
            code == self@,
            code < 0,
    {
        proof {
            use_type_invariant(self);
        }
        self.code
    }
}

/// Calls `windows_core::HRESULT::ok` and, where it returns an error, reads
/// the error's code with `windows_core::Error::code`. Believed of them: a
/// code of zero or above is a success, and a negative code comes back as
/// the code of the error, unchanged.
#[verifier::external_body]
fn hresult_ok(code: i32) -> (outcome: Result<(), i32>)
    ensures
        outcome == decoded(code),
{
    match windows_core::HRESULT(code).ok() {
        Ok(()) => Ok(()),
        Err(error) => Err(error.code().0),
    }
}

/// Calls `HRESULT::from` on a `windows_core::Result<()>`, whose error, if
/// any, is made by `windows_core::Error::from_hresult`. Believed of them:
/// success becomes zero, and an error becomes the code that it was made
/// from. An error keeps its code in a slot that cannot hold zero and reads
/// one positive value back as zero, so this holds of negative codes, and
/// only those are admitted here.
#[verifier::external_body]
fn hresult_from(outcome: Result<(), i32>) -> (code: i32)
    requires
        valid_outcome(outcome),
    ensures
        code == encoded(outcome),
{
    let result: windows_core::Result<()> = match outcome {
        Ok(()) => Ok(()),
        Err(code) => Err(windows_core::Error::from_hresult(windows_core::HRESULT(code))),
    };
    windows_core::HRESULT::from(result).0
}

impl StatusCode {
    /// The code that reports plain success.
    pub fn success() -> (status: StatusCode)
        ensures
            status.0 == 0,
    {
        StatusCode(0)
    }

    /// Decodes the status code: success for a success code, otherwise the
    /// failure that carries this code.
    pub fn ok(self) -> (result: Result<(), Failure>)
        ensures
            outcome_of(result) == decoded(self.0),
    {
        match hresult_ok(self.0) {
            Ok(()) => Ok(()),
            Err(code) => Err(Failure { code }),
        }
    }

    /// Encodes a closure's result as the status code handed back to the
    /// foreign caller.
    pub fn from_result(result: Result<(), Failure>) -> (status: StatusCode)
        ensures
            status.0 == encoded(outcome_of(result)),
            result is Err <==> status.0 < 0,
    {
        match result {
            Ok(()) => StatusCode(hresult_from(Ok(()))),
            Err(failure) => StatusCode(hresult_from(Err(failure.code()))),
        }
    }
}

} // verus!
