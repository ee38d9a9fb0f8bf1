//! What an invocation is answered with.
//!
//! An adapter knows nothing of its closure but what the closure's own
//! contract says. These predicates state an adapter's answer in those terms:
//! the status code is the encoding of a result that the closure can return
//! for the converted arguments.

use vstd::prelude::*;
use crate::arg::InvokeArg;
use crate::status::{encoded, outcome_of, Failure, StatusCode};

verus! {

/// Whether `status` reports what the closure can return when it is called
/// with `output`: zero where the closure succeeds, the failure's code, which
/// is negative, where it fails.
pub open spec fn reports<Output, F: FnOnce(Output) -> Result<(), Failure>>(
    closure: F,
    output: Output,
    status: StatusCode,
) -> bool {
    exists|result: Result<(), Failure>| #[trigger]
        closure.ensures((output,), result) && status.0 == encoded(outcome_of(result)) && (result
            is Err <==> status.0 < 0)
}

/// Whether `status` answers an invocation with the raw arguments `raw`:
/// it reports what the closure can return when it is called with what `raw`
/// converts to.
pub open spec fn answers<'a, Args: InvokeArg<'a>, F: FnOnce(Args::Output) -> Result<(), Failure>>(
    closure: F,
    raw: Args::Input,
    status: StatusCode,
) -> bool {
    exists|output: Args::Output|
        Args::converts(raw, output) && #[trigger] reports(closure, output, status)
}

/// Whether the closure may be called with everything that `raw` converts
/// to.
pub open spec fn accepts<'a, Args: InvokeArg<'a>, F: FnOnce(Args::Output) -> Result<(), Failure>>(
    closure: F,
    raw: Args::Input,
) -> bool {
    forall|output: Args::Output| #[trigger]
        Args::converts(raw, output) ==> closure.requires((output,))
}

} // verus!
