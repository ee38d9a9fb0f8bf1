//! The handlers for completions: one adapter type for each completion
//! interface.
//!
//! Every completion interface has an invocation method whose first raw
//! argument is the status code of the operation. Most have a second one:
//! the object that the operation made, or a text. Each handler is a one-shot
//! adapter under a name of its own.

use vstd::prelude::*;
use crate::answer::{accepts, answers};
use crate::arg::InvokeArg;
use crate::completed::{AlreadyInvoked, CompletedCallback, Lifecycle};
use crate::status::{Failure, StatusCode};
use crate::wide::WideString;

verus! {

/// The raw arguments of a completion that hands over an object: the status
/// code and an optional foreign reference.
pub type WithObject<I> = (StatusCode, Option<I>);

/// What the closure of such a completion is called with.
pub type ObjectResult<I> = (Result<(), Failure>, Option<I>);

/// The raw arguments of a completion that hands over a text: the status
/// code and a raw wide string.
pub type WithText = (StatusCode, WideString);

/// What the closure of such a completion is called with.
pub type TextResult = (Result<(), Failure>, String);

/// Handler for the completion of the creation of an environment. The closure
/// gets the decoded status and the environment that was created.
pub struct CreateCoreWebView2EnvironmentCompletedHandler<
    I: Clone,
    F: FnOnce(ObjectResult<I>) -> Result<(), Failure>,
> {
    adapter: CompletedCallback<WithObject<I>, F>,
}

impl<
    I: Clone,
    F: FnOnce(ObjectResult<I>) -> Result<(), Failure>,
> CreateCoreWebView2EnvironmentCompletedHandler<I, F> {
    /// The state of the handler.
    pub closed spec fn spec_state(&self) -> Lifecycle {
        self.adapter.state()
    }

    /// The closure of a handler that was not invoked yet.
    pub closed spec fn closure(&self) -> F
        recommends
            self.state() == Lifecycle::Uninvoked,
    {
        self.adapter.closure()
    }

    /// A handler that calls `closure` when the operation has completed.
    pub fn create(closure: F) -> (handler: Self)
        ensures
            handler.state() == Lifecycle::Uninvoked,
            handler.closure() == closure,
    {
        CreateCoreWebView2EnvironmentCompletedHandler {
            adapter: CompletedCallback::create(closure),
        }
    }

    /// The state of the handler.
    #[verifier::when_used_as_spec(spec_state)]
    pub fn state(&self) -> (state: Lifecycle)
        ensures
            state == self.state(),
    {
        self.adapter.state()
    }

    /// The invocation method: answers the completion, once. A further
    /// invocation is reported as a violation and reaches no closure.
    pub fn invoke<'a>(
        &mut self,
        status: StatusCode,
        environment: &'a Option<I>,
    ) -> (outcome: Result<StatusCode, AlreadyInvoked>) where I: 'a
        requires
            old(self).state().admits_invocation() ==> accepts::<WithObject<I>, F>(
                old(self).closure(),
                (status, environment),
            ),
        ensures
            final(self).state() == old(self).state().after_invocation(),
            outcome is Ok <==> old(self).state().admits_invocation(),
            outcome matches Ok(answer) ==> answers::<WithObject<I>, F>(
                old(self).closure(),
                (status, environment),
                answer,
            ),
    {
        let output = <WithObject<I> as InvokeArg<'a>>::convert((status, environment));
        self.adapter.call(output)
    }
}

/// Handler for the completion of the creation of a controller. The closure gets
/// the decoded status and the controller that was created.
pub struct CreateCoreWebView2ControllerCompletedHandler<
    I: Clone,
    F: FnOnce(ObjectResult<I>) -> Result<(), Failure>,
> {
    adapter: CompletedCallback<WithObject<I>, F>,
}

impl<
    I: Clone,
    F: FnOnce(ObjectResult<I>) -> Result<(), Failure>,
> CreateCoreWebView2ControllerCompletedHandler<I, F> {
    /// The state of the handler.
    pub closed spec fn spec_state(&self) -> Lifecycle {
        self.adapter.state()
    }

    /// The closure of a handler that was not invoked yet.
    pub closed spec fn closure(&self) -> F
        recommends
            self.state() == Lifecycle::Uninvoked,
    {
        self.adapter.closure()
    }

    /// A handler that calls `closure` when the operation has completed.
    pub fn create(closure: F) -> (handler: Self)
        ensures
            handler.state() == Lifecycle::Uninvoked,
            handler.closure() == closure,
    {
        CreateCoreWebView2ControllerCompletedHandler { adapter: CompletedCallback::create(closure) }
    }

    /// The state of the handler.
    #[verifier::when_used_as_spec(spec_state)]
    pub fn state(&self) -> (state: Lifecycle)
        ensures
            state == self.state(),
    {
        self.adapter.state()
    }

    /// The invocation method: answers the completion, once. A further
    /// invocation is reported as a violation and reaches no closure.
    pub fn invoke<'a>(
        &mut self,
        status: StatusCode,
        controller: &'a Option<I>,
    ) -> (outcome: Result<StatusCode, AlreadyInvoked>) where I: 'a
        requires
            old(self).state().admits_invocation() ==> accepts::<WithObject<I>, F>(
                old(self).closure(),
                (status, controller),
            ),
        ensures
            final(self).state() == old(self).state().after_invocation(),
            outcome is Ok <==> old(self).state().admits_invocation(),
            outcome matches Ok(answer) ==> answers::<WithObject<I>, F>(
                old(self).closure(),
                (status, controller),
                answer,
            ),
    {
        let output = <WithObject<I> as InvokeArg<'a>>::convert((status, controller));
        self.adapter.call(output)
    }
}

/// Handler for the completion of the creation of a composition controller. The
/// closure gets the decoded status and the controller that was created.
pub struct CreateCoreWebView2CompositionControllerCompletedHandler<
    I: Clone,
    F: FnOnce(ObjectResult<I>) -> Result<(), Failure>,
> {
    adapter: CompletedCallback<WithObject<I>, F>,
}

impl<
    I: Clone,
    F: FnOnce(ObjectResult<I>) -> Result<(), Failure>,
> CreateCoreWebView2CompositionControllerCompletedHandler<I, F> {
    /// The state of the handler.
    pub closed spec fn spec_state(&self) -> Lifecycle {
        self.adapter.state()
    }

    /// The closure of a handler that was not invoked yet.
    pub closed spec fn closure(&self) -> F
        recommends
            self.state() == Lifecycle::Uninvoked,
    {
        self.adapter.closure()
    }

    /// A handler that calls `closure` when the operation has completed.
    pub fn create(closure: F) -> (handler: Self)
        ensures
            handler.state() == Lifecycle::Uninvoked,
            handler.closure() == closure,
    {
        CreateCoreWebView2CompositionControllerCompletedHandler {
            adapter: CompletedCallback::create(closure),
        }
    }

    /// The state of the handler.
    #[verifier::when_used_as_spec(spec_state)]
    pub fn state(&self) -> (state: Lifecycle)
        ensures
            state == self.state(),
    {
        self.adapter.state()
    }

    /// The invocation method: answers the completion, once. A further
    /// invocation is reported as a violation and reaches no closure.
    pub fn invoke<'a>(
        &mut self,
        status: StatusCode,
        controller: &'a Option<I>,
    ) -> (outcome: Result<StatusCode, AlreadyInvoked>) where I: 'a
        requires
            old(self).state().admits_invocation() ==> accepts::<WithObject<I>, F>(
                old(self).closure(),
                (status, controller),
            ),
        ensures
            final(self).state() == old(self).state().after_invocation(),
            outcome is Ok <==> old(self).state().admits_invocation(),
            outcome matches Ok(answer) ==> answers::<WithObject<I>, F>(
                old(self).closure(),
                (status, controller),
                answer,
            ),
    {
        let output = <WithObject<I> as InvokeArg<'a>>::convert((status, controller));
        self.adapter.call(output)
    }
}

/// Handler for the completion of the registration of a script that runs when a
/// document is created. The closure gets the decoded status and the identifier
/// of the script.
pub struct AddScriptToExecuteOnDocumentCreatedCompletedHandler<
    F: FnOnce(TextResult) -> Result<(), Failure>,
> {
    adapter: CompletedCallback<WithText, F>,
}

impl<
    F: FnOnce(TextResult) -> Result<(), Failure>,
> AddScriptToExecuteOnDocumentCreatedCompletedHandler<F> {
    /// The state of the handler.
    pub closed spec fn spec_state(&self) -> Lifecycle {
        self.adapter.state()
    }

    /// The closure of a handler that was not invoked yet.
    pub closed spec fn closure(&self) -> F
        recommends
            self.state() == Lifecycle::Uninvoked,
    {
        self.adapter.closure()
    }

    /// A handler that calls `closure` when the operation has completed.
    pub fn create(closure: F) -> (handler: Self)
        ensures
            handler.state() == Lifecycle::Uninvoked,
            handler.closure() == closure,
    {
        AddScriptToExecuteOnDocumentCreatedCompletedHandler {
            adapter: CompletedCallback::create(closure),
        }
    }

    /// The state of the handler.
    #[verifier::when_used_as_spec(spec_state)]
    pub fn state(&self) -> (state: Lifecycle)
        ensures
            state == self.state(),
    {
        self.adapter.state()
    }

    /// The invocation method: answers the completion, once. A further
    /// invocation is reported as a violation and reaches no closure.
    pub fn invoke(
        &mut self,
        status: StatusCode,
        id: WideString,
    ) -> (outcome: Result<StatusCode, AlreadyInvoked>)
        requires
            old(self).state().admits_invocation() ==> accepts::<WithText, F>(
                old(self).closure(),
                (status, id),
            ),
        ensures
            final(self).state() == old(self).state().after_invocation(),
            outcome is Ok <==> old(self).state().admits_invocation(),
            outcome matches Ok(answer) ==> answers::<WithText, F>(
                old(self).closure(),
                (status, id),
                answer,
            ),
    {
        let output = <WithText as InvokeArg>::convert((status, id));
        self.adapter.call(output)
    }
}

/// Handler for the completion of the execution of a script. The closure gets
/// the decoded status and the result of the script as JSON text.
pub struct ExecuteScriptCompletedHandler<F: FnOnce(TextResult) -> Result<(), Failure>> {
    adapter: CompletedCallback<WithText, F>,
}

impl<F: FnOnce(TextResult) -> Result<(), Failure>> ExecuteScriptCompletedHandler<F> {
    /// The state of the handler.
    pub closed spec fn spec_state(&self) -> Lifecycle {
        self.adapter.state()
    }

    /// The closure of a handler that was not invoked yet.
    pub closed spec fn closure(&self) -> F
        recommends
            self.state() == Lifecycle::Uninvoked,
    {
        self.adapter.closure()
    }

    /// A handler that calls `closure` when the operation has completed.
    pub fn create(closure: F) -> (handler: Self)
        ensures
            handler.state() == Lifecycle::Uninvoked,
            handler.closure() == closure,
    {
        ExecuteScriptCompletedHandler { adapter: CompletedCallback::create(closure) }
    }

    /// The state of the handler.
    #[verifier::when_used_as_spec(spec_state)]
    pub fn state(&self) -> (state: Lifecycle)
        ensures
            state == self.state(),
    {
        self.adapter.state()
    }

    /// The invocation method: answers the completion, once. A further
    /// invocation is reported as a violation and reaches no closure.
    pub fn invoke(
        &mut self,
        status: StatusCode,
        result: WideString,
    ) -> (outcome: Result<StatusCode, AlreadyInvoked>)
        requires
            old(self).state().admits_invocation() ==> accepts::<WithText, F>(
                old(self).closure(),
                (status, result),
            ),
        ensures
            final(self).state() == old(self).state().after_invocation(),
            outcome is Ok <==> old(self).state().admits_invocation(),
            outcome matches Ok(answer) ==> answers::<WithText, F>(
                old(self).closure(),
                (status, result),
                answer,
            ),
    {
        let output = <WithText as InvokeArg>::convert((status, result));
        self.adapter.call(output)
    }
}

/// Handler for the completion of the capture of a preview image. The closure
/// gets the decoded status.
pub struct CapturePreviewCompletedHandler<F: FnOnce(Result<(), Failure>) -> Result<(), Failure>> {
    adapter: CompletedCallback<StatusCode, F>,
}

impl<F: FnOnce(Result<(), Failure>) -> Result<(), Failure>> CapturePreviewCompletedHandler<F> {
    /// The state of the handler.
    pub closed spec fn spec_state(&self) -> Lifecycle {
        self.adapter.state()
    }

    /// The closure of a handler that was not invoked yet.
    pub closed spec fn closure(&self) -> F
        recommends
            self.state() == Lifecycle::Uninvoked,
    {
        self.adapter.closure()
    }

    /// A handler that calls `closure` when the operation has completed.
    pub fn create(closure: F) -> (handler: Self)
        ensures
            handler.state() == Lifecycle::Uninvoked,
            handler.closure() == closure,
    {
        CapturePreviewCompletedHandler { adapter: CompletedCallback::create(closure) }
    }

    /// The state of the handler.
    #[verifier::when_used_as_spec(spec_state)]
    pub fn state(&self) -> (state: Lifecycle)
        ensures
            state == self.state(),
    {
        self.adapter.state()
    }

    /// The invocation method: answers the completion, once. A further
    /// invocation is reported as a violation and reaches no closure.
    pub fn invoke(&mut self, status: StatusCode) -> (outcome: Result<StatusCode, AlreadyInvoked>)
        requires
            old(self).state().admits_invocation() ==> accepts::<StatusCode, F>(
                old(self).closure(),
                status,
            ),
        ensures
            final(self).state() == old(self).state().after_invocation(),
            outcome is Ok <==> old(self).state().admits_invocation(),
            outcome matches Ok(answer) ==> answers::<StatusCode, F>(
                old(self).closure(),
                status,
                answer,
            ),
    {
        let output = <StatusCode as InvokeArg>::convert(status);
        self.adapter.call(output)
    }
}

/// Handler for the completion of the call of a method of the developer tools
/// protocol. The closure gets the decoded status and what the method returned
/// as JSON text.
pub struct CallDevToolsProtocolMethodCompletedHandler<
    F: FnOnce(TextResult) -> Result<(), Failure>,
> {
    adapter: CompletedCallback<WithText, F>,
}

impl<F: FnOnce(TextResult) -> Result<(), Failure>> CallDevToolsProtocolMethodCompletedHandler<F> {
    /// The state of the handler.
    pub closed spec fn spec_state(&self) -> Lifecycle {
        self.adapter.state()
    }

    /// The closure of a handler that was not invoked yet.
    pub closed spec fn closure(&self) -> F
        recommends
            self.state() == Lifecycle::Uninvoked,
    {
        self.adapter.closure()
    }

    /// A handler that calls `closure` when the operation has completed.
    pub fn create(closure: F) -> (handler: Self)
        ensures
            handler.state() == Lifecycle::Uninvoked,
            handler.closure() == closure,
    {
        CallDevToolsProtocolMethodCompletedHandler { adapter: CompletedCallback::create(closure) }
    }

    /// The state of the handler.
    #[verifier::when_used_as_spec(spec_state)]
    pub fn state(&self) -> (state: Lifecycle)
        ensures
            state == self.state(),
    {
        self.adapter.state()
    }

    /// The invocation method: answers the completion, once. A further
    /// invocation is reported as a violation and reaches no closure.
    pub fn invoke(
        &mut self,
        status: StatusCode,
        result: WideString,
    ) -> (outcome: Result<StatusCode, AlreadyInvoked>)
        requires
            old(self).state().admits_invocation() ==> accepts::<WithText, F>(
                old(self).closure(),
                (status, result),
            ),
        ensures
            final(self).state() == old(self).state().after_invocation(),
            outcome is Ok <==> old(self).state().admits_invocation(),
            outcome matches Ok(answer) ==> answers::<WithText, F>(
                old(self).closure(),
                (status, result),
                answer,
            ),
    {
        let output = <WithText as InvokeArg>::convert((status, result));
        self.adapter.call(output)
    }
}

/// Handler for the completion of the listing of cookies. The closure gets the
/// decoded status and the list of cookies.
pub struct GetCookiesCompletedHandler<I: Clone, F: FnOnce(ObjectResult<I>) -> Result<(), Failure>> {
    adapter: CompletedCallback<WithObject<I>, F>,
}

impl<I: Clone, F: FnOnce(ObjectResult<I>) -> Result<(), Failure>> GetCookiesCompletedHandler<I, F> {
    /// The state of the handler.
    pub closed spec fn spec_state(&self) -> Lifecycle {
        self.adapter.state()
    }

    /// The closure of a handler that was not invoked yet.
    pub closed spec fn closure(&self) -> F
        recommends
            self.state() == Lifecycle::Uninvoked,
    {
        self.adapter.closure()
    }

    /// A handler that calls `closure` when the operation has completed.
    pub fn create(closure: F) -> (handler: Self)
        ensures
            handler.state() == Lifecycle::Uninvoked,
            handler.closure() == closure,
    {
        GetCookiesCompletedHandler { adapter: CompletedCallback::create(closure) }
    }

    /// The state of the handler.
    #[verifier::when_used_as_spec(spec_state)]
    pub fn state(&self) -> (state: Lifecycle)
        ensures
            state == self.state(),
    {
        self.adapter.state()
    }

    /// The invocation method: answers the completion, once. A further
    /// invocation is reported as a violation and reaches no closure.
    pub fn invoke<'a>(
        &mut self,
        status: StatusCode,
        cookies: &'a Option<I>,
    ) -> (outcome: Result<StatusCode, AlreadyInvoked>) where I: 'a
        requires
            old(self).state().admits_invocation() ==> accepts::<WithObject<I>, F>(
                old(self).closure(),
                (status, cookies),
            ),
        ensures
            final(self).state() == old(self).state().after_invocation(),
            outcome is Ok <==> old(self).state().admits_invocation(),
            outcome matches Ok(answer) ==> answers::<WithObject<I>, F>(
                old(self).closure(),
                (status, cookies),
                answer,
            ),
    {
        let output = <WithObject<I> as InvokeArg<'a>>::convert((status, cookies));
        self.adapter.call(output)
    }
}

} // verus!
