//! Conversion of raw callback arguments into the owned values a closure gets.
//!
//! Each category of raw argument names the owned type that a closure
//! receives for it and says how a raw value becomes an owned one. The unit
//! type and pairs of categories are categories too, so that an invocation
//! method with no, one or two raw arguments converts them in one call.

use vstd::prelude::*;
use crate::status::{decoded, outcome_of, Failure, StatusCode};
use crate::wide::WideString;

verus! {

/// A category of raw argument, with the owned type a closure receives for it.
pub trait ClosureArg {
    type Output: Sized;
}

/// How a raw argument of a category becomes the owned value of that
/// category.
pub trait InvokeArg<'a>: ClosureArg {
    /// The raw argument as the invocation method gets it.
    type Input: 'a;

    /// Whether `output` is an owned value that `input` converts to.
    spec fn converts(input: Self::Input, output: <Self as ClosureArg>::Output) -> bool;

    /// Converts a raw argument into its owned value.
    fn convert(input: Self::Input) -> (output: <Self as ClosureArg>::Output)
        ensures
            Self::converts(input, output),
    ;
}

impl ClosureArg for StatusCode {
    type Output = Result<(), Failure>;
}

/// A status code converts to what it decodes to: success, or the failure
/// that carries the code.
impl<'a> InvokeArg<'a> for StatusCode {
    type Input = StatusCode;

    open spec fn converts(input: StatusCode, output: Result<(), Failure>) -> bool {
        outcome_of(output) == decoded(input.0)
    }

    fn convert(input: StatusCode) -> (output: Result<(), Failure>) {
        input.ok()
    }
}

impl ClosureArg for WideString {
    type Output = String;
}

/// A raw wide string is taken over and converts to its text.
impl<'a> InvokeArg<'a> for WideString {
    type Input = WideString;

    open spec fn converts(input: WideString, output: String) -> bool {
        output@ == input.text()
    }

    fn convert(input: WideString) -> (output: String) {
        input.into_string()
    }
}

impl<I: Clone> ClosureArg for Option<I> {
    type Output = Option<I>;
}

/// An optional foreign reference arrives as a borrow and converts to an
/// owned reference of its own: a clone, which for a counted reference is a
/// retain. An absent reference stays absent.
impl<'a, I: 'a + Clone> InvokeArg<'a> for Option<I> {
    type Input = &'a Option<I>;

    open spec fn converts(input: &'a Option<I>, output: Option<I>) -> bool {
        match (*input, output) {
            (Some(borrowed), Some(owned)) => cloned::<I>(borrowed, owned),
            (None, None) => true,
            _ => false,
        }
    }

    fn convert(input: &'a Option<I>) -> (output: Option<I>) {
        input.clone()
    }
}

impl ClosureArg for () {
    type Output = ();
}

/// No raw argument: nothing to convert.
impl<'a> InvokeArg<'a> for () {
    type Input = ();

    open spec fn converts(input: (), output: ()) -> bool {
        true
    }

    fn convert(input: ()) -> (output: ()) {
        ()
    }
}

impl<A: ClosureArg, B: ClosureArg> ClosureArg for (A, B) {
    type Output = (A::Output, B::Output);
}

/// Two raw arguments convert one by one, the first before the second.
impl<'a, A: InvokeArg<'a>, B: InvokeArg<'a>> InvokeArg<'a> for (A, B) {
    type Input = (A::Input, B::Input);

    open spec fn converts(input: (A::Input, B::Input), output: (A::Output, B::Output)) -> bool {
        A::converts(input.0, output.0) && B::converts(input.1, output.1)
    }

    fn convert(input: (A::Input, B::Input)) -> (output: (A::Output, B::Output)) {
        let first = A::convert(input.0);
        let second = B::convert(input.1);
        (first, second)
    }
}

} // verus!
