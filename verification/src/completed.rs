//! The one-shot adapter: its closure is called at most once.

use vstd::prelude::*;
use core::marker::PhantomData;
use crate::answer::{accepts, answers, reports};
use crate::arg::{ClosureArg, InvokeArg};
use crate::status::{Failure, StatusCode};

verus! {

/// The two states of a one-shot adapter.
#[derive(Clone, Copy, Debug, PartialEq, Eq, Structural)]
pub enum Lifecycle {
    /// The closure is still in place.
    Uninvoked,
    /// The closure was taken by an invocation. This state is never left.
    Invoked,
}

impl Lifecycle {
    /// Whether an invocation in this state reaches the closure.
    pub open spec fn admits_invocation(self) -> bool {
        self == Lifecycle::Uninvoked
    }

    /// The state that an invocation in this state leaves behind.
    pub open spec fn after_invocation(self) -> Lifecycle {
        Lifecycle::Invoked
    }

    /// After an invocation, whatever the state before it, no further
    /// invocation reaches a closure, and the state stays as it is.
    pub proof fn lemma_invoked_is_terminal(self)
        ensures
            !self.after_invocation().admits_invocation(),
            self.after_invocation().after_invocation() == self.after_invocation(),
    {
    }
}

/// The foreign caller invoked a one-shot adapter whose closure was already
/// taken.
#[derive(Clone, Copy, Debug, PartialEq, Eq, Structural)]
pub struct AlreadyInvoked;

/// A one-shot adapter over a closure that takes the converted arguments of
/// the category `Args`.
pub struct CompletedCallback<Args: ClosureArg, F: FnOnce(Args::Output) -> Result<(), Failure>> {
    slot: Option<F>,
    args: PhantomData<Args>,
}

impl<Args: ClosureArg, F: FnOnce(Args::Output) -> Result<(), Failure>> CompletedCallback<Args, F> {
    /// The state of the adapter.
    pub closed spec fn spec_state(&self) -> Lifecycle {
        if self.slot is Some {
            Lifecycle::Uninvoked
        } else {
            Lifecycle::Invoked
        }
    }

    /// The closure of an adapter that was not invoked yet.
    pub closed spec fn closure(&self) -> F
        recommends
            self.state() == Lifecycle::Uninvoked,
    {
        self.slot->0
    }

    /// An adapter that holds the closure and waits for its invocation.
    pub fn create(closure: F) -> (adapter: Self)
        ensures
            adapter.state() == Lifecycle::Uninvoked,
            adapter.closure() == closure,
    {
        CompletedCallback { slot: Some(closure), args: PhantomData }
    }

    /// The state of the adapter.
    #[verifier::when_used_as_spec(spec_state)]
    pub fn state(&self) -> (state: Lifecycle)
        ensures
            state == self.state(),
    {
        if self.slot.is_some() {
            Lifecycle::Uninvoked
        } else {
            Lifecycle::Invoked
        }
    }

    /// Answers an invocation whose arguments are converted already. Where
    /// the closure is still in place, it is called with them and its result
    /// is encoded; the closure is used up. Where the closure was taken
    /// before, the arguments are dropped, nothing is called and no status
    /// code is made up: the violation is reported, for the caller to stop
    /// on.
    pub fn call(&mut self, output: Args::Output) -> (outcome: Result<StatusCode, AlreadyInvoked>)
        requires
            old(self).state().admits_invocation() ==> old(self).closure().requires((output,)),
        ensures
            final(self).state() == old(self).state().after_invocation(),
            outcome is Ok <==> old(self).state().admits_invocation(),
            outcome matches Ok(status) ==> reports(old(self).closure(), output, status),
    {
        match self.slot.take() {
            Some(closure) => {
                let result = closure(output);
                Ok(StatusCode::from_result(result))
            },
            None => Err(AlreadyInvoked),
        }
    }

    /// An invocation: converts the raw arguments and answers with them as
    /// `call` does. The first invocation reaches the closure; every later
    /// one is reported as a violation.
    pub fn invoke<'a>(
        &mut self,
        raw: <Args as InvokeArg<'a>>::Input,
    ) -> (outcome: Result<StatusCode, AlreadyInvoked>) where Args: InvokeArg<'a>
        requires
            old(self).state().admits_invocation() ==> accepts::<Args, F>(old(self).closure(), raw),
        ensures
            final(self).state() == old(self).state().after_invocation(),
            outcome is Ok <==> old(self).state().admits_invocation(),
            outcome matches Ok(status) ==> answers::<Args, F>(old(self).closure(), raw, status),
    {
        let output = Args::convert(raw);
        self.call(output)
    }
}

} // verus!
