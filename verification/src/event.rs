//! The multi-shot adapter: its closure is called on every invocation.

use vstd::prelude::*;
use core::marker::PhantomData;
use crate::answer::{accepts, answers, reports};
use crate::arg::{ClosureArg, InvokeArg};
use crate::status::{Failure, StatusCode};

verus! {

/// A multi-shot adapter over a closure that takes the converted arguments
/// of the category `Args`.
pub struct EventCallback<Args: ClosureArg, F: FnMut(Args::Output) -> Result<(), Failure>> {
    closure: F,
    args: PhantomData<Args>,
}

impl<Args: ClosureArg, F: FnMut(Args::Output) -> Result<(), Failure>> EventCallback<Args, F> {
    /// The closure of the adapter.
    pub closed spec fn closure(&self) -> F {
        self.closure
    }

    /// An adapter that holds the closure for as long as it lives.
    pub fn create(closure: F) -> (adapter: Self)
        ensures
            adapter.closure() == closure,
    {
        EventCallback { closure, args: PhantomData }
    }

    /// Calls the closure with arguments that are converted already and
    /// encodes its result. The closure stays in place, whatever it returned.
    pub fn call(&mut self, output: Args::Output) -> (status: StatusCode)
        requires
            old(self).closure().requires((output,)),
        ensures
            final(self).closure() == old(self).closure(),
            reports(old(self).closure(), output, status),
    {
        let result = (self.closure)(output);
        StatusCode::from_result(result)
    }

    /// One invocation: converts the raw arguments, calls the closure with
    /// them and encodes its result. The closure stays in place, whatever it
    /// returned.
    pub fn invoke<'a>(&mut self, raw: <Args as InvokeArg<'a>>::Input) -> (status: StatusCode)
        where Args: InvokeArg<'a>
        requires
            accepts::<Args, F>(old(self).closure(), raw),
        ensures
            final(self).closure() == old(self).closure(),
            answers::<Args, F>(old(self).closure(), raw, status),
    {
        let output = Args::convert(raw);
        self.call(output)
    }
}

} // verus!
