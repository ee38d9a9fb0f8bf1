//! The handlers for events: one adapter type for each event interface.
//!
//! Every event interface has an invocation method with two raw arguments,
//! both optional foreign references: the object that raised the event and
//! the arguments of the event. Each handler is a multi-shot adapter under a
//! name of its own, so that a handler made for one event cannot be handed
//! over for another.

use vstd::prelude::*;
use crate::answer::{accepts, answers};
use crate::arg::InvokeArg;
use crate::event::EventCallback;
use crate::status::{Failure, StatusCode};

verus! {

/// The two arguments of an event: as a category, the raw arguments of the
/// invocation method; as owned values, what the closure is called with.
pub type Raised<Sender, Args> = (Option<Sender>, Option<Args>);

/// Handler for the event that a newer version of the browser runtime is ready
/// to be used. The closure gets the environment that raised the event and an
/// untyped object that carries nothing for this event.
pub struct NewBrowserVersionAvailableEventHandler<
    Sender: Clone,
    Args: Clone,
    F: FnMut(Raised<Sender, Args>) -> Result<(), Failure>,
> {
    adapter: EventCallback<Raised<Sender, Args>, F>,
}

impl<
    Sender: Clone,
    Args: Clone,
    F: FnMut(Raised<Sender, Args>) -> Result<(), Failure>,
> NewBrowserVersionAvailableEventHandler<Sender, Args, F> {
    /// The closure of the handler.
    pub closed spec fn closure(&self) -> F {
        self.adapter.closure()
    }

    /// A handler that calls `closure` each time the event is raised.
    pub fn create(closure: F) -> (handler: Self)
        ensures
            handler.closure() == closure,
    {
        NewBrowserVersionAvailableEventHandler { adapter: EventCallback::create(closure) }
    }

    /// The invocation method: answers one raising of the event.
    pub fn invoke<'a>(
        &mut self,
        sender: &'a Option<Sender>,
        args: &'a Option<Args>,
    ) -> (status: StatusCode) where Sender: 'a, Args: 'a
        requires
            accepts::<Raised<Sender, Args>, F>(old(self).closure(), (sender, args)),
        ensures
            final(self).closure() == old(self).closure(),
            answers::<Raised<Sender, Args>, F>(old(self).closure(), (sender, args), status),
    {
        let output = <Raised<Sender, Args> as InvokeArg<'a>>::convert((sender, args));
        self.adapter.call(output)
    }
}

/// Handler for the event that the zoom factor of a view changes. The closure
/// gets the controller that raised the event and an untyped object that carries
/// nothing for this event.
pub struct ZoomFactorChangedEventHandler<
    Sender: Clone,
    Args: Clone,
    F: FnMut(Raised<Sender, Args>) -> Result<(), Failure>,
> {
    adapter: EventCallback<Raised<Sender, Args>, F>,
}

impl<
    Sender: Clone,
    Args: Clone,
    F: FnMut(Raised<Sender, Args>) -> Result<(), Failure>,
> ZoomFactorChangedEventHandler<Sender, Args, F> {
    /// The closure of the handler.
    pub closed spec fn closure(&self) -> F {
        self.adapter.closure()
    }

    /// A handler that calls `closure` each time the event is raised.
    pub fn create(closure: F) -> (handler: Self)
        ensures
            handler.closure() == closure,
    {
        ZoomFactorChangedEventHandler { adapter: EventCallback::create(closure) }
    }

    /// The invocation method: answers one raising of the event.
    pub fn invoke<'a>(
        &mut self,
        sender: &'a Option<Sender>,
        args: &'a Option<Args>,
    ) -> (status: StatusCode) where Sender: 'a, Args: 'a
        requires
            accepts::<Raised<Sender, Args>, F>(old(self).closure(), (sender, args)),
        ensures
            final(self).closure() == old(self).closure(),
            answers::<Raised<Sender, Args>, F>(old(self).closure(), (sender, args), status),
    {
        let output = <Raised<Sender, Args> as InvokeArg<'a>>::convert((sender, args));
        self.adapter.call(output)
    }
}

/// Handler for the event that the user tabs out of a view and the focus is to
/// move on. The closure gets the controller that raised the event and the
/// event's arguments.
pub struct MoveFocusRequestedEventHandler<
    Sender: Clone,
    Args: Clone,
    F: FnMut(Raised<Sender, Args>) -> Result<(), Failure>,
> {
    adapter: EventCallback<Raised<Sender, Args>, F>,
}

impl<
    Sender: Clone,
    Args: Clone,
    F: FnMut(Raised<Sender, Args>) -> Result<(), Failure>,
> MoveFocusRequestedEventHandler<Sender, Args, F> {
    /// The closure of the handler.
    pub closed spec fn closure(&self) -> F {
        self.adapter.closure()
    }

    /// A handler that calls `closure` each time the event is raised.
    pub fn create(closure: F) -> (handler: Self)
        ensures
            handler.closure() == closure,
    {
        MoveFocusRequestedEventHandler { adapter: EventCallback::create(closure) }
    }

    /// The invocation method: answers one raising of the event.
    pub fn invoke<'a>(
        &mut self,
        sender: &'a Option<Sender>,
        args: &'a Option<Args>,
    ) -> (status: StatusCode) where Sender: 'a, Args: 'a
        requires
            accepts::<Raised<Sender, Args>, F>(old(self).closure(), (sender, args)),
        ensures
            final(self).closure() == old(self).closure(),
            answers::<Raised<Sender, Args>, F>(old(self).closure(), (sender, args), status),
    {
        let output = <Raised<Sender, Args> as InvokeArg<'a>>::convert((sender, args));
        self.adapter.call(output)
    }
}

/// Handler for the event that a view gets or loses the focus. The closure gets
/// the controller that raised the event and an untyped object that carries
/// nothing for this event.
pub struct FocusChangedEventHandler<
    Sender: Clone,
    Args: Clone,
    F: FnMut(Raised<Sender, Args>) -> Result<(), Failure>,
> {
    adapter: EventCallback<Raised<Sender, Args>, F>,
}

impl<
    Sender: Clone,
    Args: Clone,
    F: FnMut(Raised<Sender, Args>) -> Result<(), Failure>,
> FocusChangedEventHandler<Sender, Args, F> {
    /// The closure of the handler.
    pub closed spec fn closure(&self) -> F {
        self.adapter.closure()
    }

    /// A handler that calls `closure` each time the event is raised.
    pub fn create(closure: F) -> (handler: Self)
        ensures
            handler.closure() == closure,
    {
        FocusChangedEventHandler { adapter: EventCallback::create(closure) }
    }

    /// The invocation method: answers one raising of the event.
    pub fn invoke<'a>(
        &mut self,
        sender: &'a Option<Sender>,
        args: &'a Option<Args>,
    ) -> (status: StatusCode) where Sender: 'a, Args: 'a
        requires
            accepts::<Raised<Sender, Args>, F>(old(self).closure(), (sender, args)),
        ensures
            final(self).closure() == old(self).closure(),
            answers::<Raised<Sender, Args>, F>(old(self).closure(), (sender, args), status),
    {
        let output = <Raised<Sender, Args> as InvokeArg<'a>>::convert((sender, args));
        self.adapter.call(output)
    }
}

/// Handler for the event that an accelerator key is pressed or released while a
/// view has the focus. The closure gets the controller that raised the event
/// and the event's arguments.
pub struct AcceleratorKeyPressedEventHandler<
    Sender: Clone,
    Args: Clone,
    F: FnMut(Raised<Sender, Args>) -> Result<(), Failure>,
> {
    adapter: EventCallback<Raised<Sender, Args>, F>,
}

impl<
    Sender: Clone,
    Args: Clone,
    F: FnMut(Raised<Sender, Args>) -> Result<(), Failure>,
> AcceleratorKeyPressedEventHandler<Sender, Args, F> {
    /// The closure of the handler.
    pub closed spec fn closure(&self) -> F {
        self.adapter.closure()
    }

    /// A handler that calls `closure` each time the event is raised.
    pub fn create(closure: F) -> (handler: Self)
        ensures
            handler.closure() == closure,
    {
        AcceleratorKeyPressedEventHandler { adapter: EventCallback::create(closure) }
    }

    /// The invocation method: answers one raising of the event.
    pub fn invoke<'a>(
        &mut self,
        sender: &'a Option<Sender>,
        args: &'a Option<Args>,
    ) -> (status: StatusCode) where Sender: 'a, Args: 'a
        requires
            accepts::<Raised<Sender, Args>, F>(old(self).closure(), (sender, args)),
        ensures
            final(self).closure() == old(self).closure(),
            answers::<Raised<Sender, Args>, F>(old(self).closure(), (sender, args), status),
    {
        let output = <Raised<Sender, Args> as InvokeArg<'a>>::convert((sender, args));
        self.adapter.call(output)
    }
}

/// Handler for the event that the rasterization scale of a view changes. The
/// closure gets the controller that raised the event and an untyped object that
/// carries nothing for this event.
pub struct RasterizationScaleChangedEventHandler<
    Sender: Clone,
    Args: Clone,
    F: FnMut(Raised<Sender, Args>) -> Result<(), Failure>,
> {
    adapter: EventCallback<Raised<Sender, Args>, F>,
}

impl<
    Sender: Clone,
    Args: Clone,
    F: FnMut(Raised<Sender, Args>) -> Result<(), Failure>,
> RasterizationScaleChangedEventHandler<Sender, Args, F> {
    /// The closure of the handler.
    pub closed spec fn closure(&self) -> F {
        self.adapter.closure()
    }

    /// A handler that calls `closure` each time the event is raised.
    pub fn create(closure: F) -> (handler: Self)
        ensures
            handler.closure() == closure,
    {
        RasterizationScaleChangedEventHandler { adapter: EventCallback::create(closure) }
    }

    /// The invocation method: answers one raising of the event.
    pub fn invoke<'a>(
        &mut self,
        sender: &'a Option<Sender>,
        args: &'a Option<Args>,
    ) -> (status: StatusCode) where Sender: 'a, Args: 'a
        requires
            accepts::<Raised<Sender, Args>, F>(old(self).closure(), (sender, args)),
        ensures
            final(self).closure() == old(self).closure(),
            answers::<Raised<Sender, Args>, F>(old(self).closure(), (sender, args), status),
    {
        let output = <Raised<Sender, Args> as InvokeArg<'a>>::convert((sender, args));
        self.adapter.call(output)
    }
}

/// Handler for the event that a view starts to navigate to another address. The
/// closure gets the view that raised the event and the event's arguments.
pub struct NavigationStartingEventHandler<
    Sender: Clone,
    Args: Clone,
    F: FnMut(Raised<Sender, Args>) -> Result<(), Failure>,
> {
    adapter: EventCallback<Raised<Sender, Args>, F>,
}

impl<
    Sender: Clone,
    Args: Clone,
    F: FnMut(Raised<Sender, Args>) -> Result<(), Failure>,
> NavigationStartingEventHandler<Sender, Args, F> {
    /// The closure of the handler.
    pub closed spec fn closure(&self) -> F {
        self.adapter.closure()
    }

    /// A handler that calls `closure` each time the event is raised.
    pub fn create(closure: F) -> (handler: Self)
        ensures
            handler.closure() == closure,
    {
        NavigationStartingEventHandler { adapter: EventCallback::create(closure) }
    }

    /// The invocation method: answers one raising of the event.
    pub fn invoke<'a>(
        &mut self,
        sender: &'a Option<Sender>,
        args: &'a Option<Args>,
    ) -> (status: StatusCode) where Sender: 'a, Args: 'a
        requires
            accepts::<Raised<Sender, Args>, F>(old(self).closure(), (sender, args)),
        ensures
            final(self).closure() == old(self).closure(),
            answers::<Raised<Sender, Args>, F>(old(self).closure(), (sender, args), status),
    {
        let output = <Raised<Sender, Args> as InvokeArg<'a>>::convert((sender, args));
        self.adapter.call(output)
    }
}

/// Handler for the event that a view is about to load the content of a page.
/// The closure gets the view that raised the event and the event's arguments.
pub struct ContentLoadingEventHandler<
    Sender: Clone,
    Args: Clone,
    F: FnMut(Raised<Sender, Args>) -> Result<(), Failure>,
> {
    adapter: EventCallback<Raised<Sender, Args>, F>,
}

impl<
    Sender: Clone,
    Args: Clone,
    F: FnMut(Raised<Sender, Args>) -> Result<(), Failure>,
> ContentLoadingEventHandler<Sender, Args, F> {
    /// The closure of the handler.
    pub closed spec fn closure(&self) -> F {
        self.adapter.closure()
    }

    /// A handler that calls `closure` each time the event is raised.
    pub fn create(closure: F) -> (handler: Self)
        ensures
            handler.closure() == closure,
    {
        ContentLoadingEventHandler { adapter: EventCallback::create(closure) }
    }

    /// The invocation method: answers one raising of the event.
    pub fn invoke<'a>(
        &mut self,
        sender: &'a Option<Sender>,
        args: &'a Option<Args>,
    ) -> (status: StatusCode) where Sender: 'a, Args: 'a
        requires
            accepts::<Raised<Sender, Args>, F>(old(self).closure(), (sender, args)),
        ensures
            final(self).closure() == old(self).closure(),
            answers::<Raised<Sender, Args>, F>(old(self).closure(), (sender, args), status),
    {
        let output = <Raised<Sender, Args> as InvokeArg<'a>>::convert((sender, args));
        self.adapter.call(output)
    }
}

/// Handler for the event that the address that a view shows changes. The
/// closure gets the view that raised the event and the event's arguments.
pub struct SourceChangedEventHandler<
    Sender: Clone,
    Args: Clone,
    F: FnMut(Raised<Sender, Args>) -> Result<(), Failure>,
> {
    adapter: EventCallback<Raised<Sender, Args>, F>,
}

impl<
    Sender: Clone,
    Args: Clone,
    F: FnMut(Raised<Sender, Args>) -> Result<(), Failure>,
> SourceChangedEventHandler<Sender, Args, F> {
    /// The closure of the handler.
    pub closed spec fn closure(&self) -> F {
        self.adapter.closure()
    }

    /// A handler that calls `closure` each time the event is raised.
    pub fn create(closure: F) -> (handler: Self)
        ensures
            handler.closure() == closure,
    {
        SourceChangedEventHandler { adapter: EventCallback::create(closure) }
    }

    /// The invocation method: answers one raising of the event.
    pub fn invoke<'a>(
        &mut self,
        sender: &'a Option<Sender>,
        args: &'a Option<Args>,
    ) -> (status: StatusCode) where Sender: 'a, Args: 'a
        requires
            accepts::<Raised<Sender, Args>, F>(old(self).closure(), (sender, args)),
        ensures
            final(self).closure() == old(self).closure(),
            answers::<Raised<Sender, Args>, F>(old(self).closure(), (sender, args), status),
    {
        let output = <Raised<Sender, Args> as InvokeArg<'a>>::convert((sender, args));
        self.adapter.call(output)
    }
}

/// Handler for the event that the navigation history of a view changes. The
/// closure gets the view that raised the event and an untyped object that
/// carries nothing for this event.
pub struct HistoryChangedEventHandler<
    Sender: Clone,
    Args: Clone,
    F: FnMut(Raised<Sender, Args>) -> Result<(), Failure>,
> {
    adapter: EventCallback<Raised<Sender, Args>, F>,
}

impl<
    Sender: Clone,
    Args: Clone,
    F: FnMut(Raised<Sender, Args>) -> Result<(), Failure>,
> HistoryChangedEventHandler<Sender, Args, F> {
    /// The closure of the handler.
    pub closed spec fn closure(&self) -> F {
        self.adapter.closure()
    }

    /// A handler that calls `closure` each time the event is raised.
    pub fn create(closure: F) -> (handler: Self)
        ensures
            handler.closure() == closure,
    {
        HistoryChangedEventHandler { adapter: EventCallback::create(closure) }
    }

    /// The invocation method: answers one raising of the event.
    pub fn invoke<'a>(
        &mut self,
        sender: &'a Option<Sender>,
        args: &'a Option<Args>,
    ) -> (status: StatusCode) where Sender: 'a, Args: 'a
        requires
            accepts::<Raised<Sender, Args>, F>(old(self).closure(), (sender, args)),
        ensures
            final(self).closure() == old(self).closure(),
            answers::<Raised<Sender, Args>, F>(old(self).closure(), (sender, args), status),
    {
        let output = <Raised<Sender, Args> as InvokeArg<'a>>::convert((sender, args));
        self.adapter.call(output)
    }
}

/// Handler for the event that a navigation of a view has ended, in a loaded
/// page or in an error. The closure gets the view that raised the event and the
/// event's arguments.
pub struct NavigationCompletedEventHandler<
    Sender: Clone,
    Args: Clone,
    F: FnMut(Raised<Sender, Args>) -> Result<(), Failure>,
> {
    adapter: EventCallback<Raised<Sender, Args>, F>,
}

impl<
    Sender: Clone,
    Args: Clone,
    F: FnMut(Raised<Sender, Args>) -> Result<(), Failure>,
> NavigationCompletedEventHandler<Sender, Args, F> {
    /// The closure of the handler.
    pub closed spec fn closure(&self) -> F {
        self.adapter.closure()
    }

    /// A handler that calls `closure` each time the event is raised.
    pub fn create(closure: F) -> (handler: Self)
        ensures
            handler.closure() == closure,
    {
        NavigationCompletedEventHandler { adapter: EventCallback::create(closure) }
    }

    /// The invocation method: answers one raising of the event.
    pub fn invoke<'a>(
        &mut self,
        sender: &'a Option<Sender>,
        args: &'a Option<Args>,
    ) -> (status: StatusCode) where Sender: 'a, Args: 'a
        requires
            accepts::<Raised<Sender, Args>, F>(old(self).closure(), (sender, args)),
        ensures
            final(self).closure() == old(self).closure(),
            answers::<Raised<Sender, Args>, F>(old(self).closure(), (sender, args), status),
    {
        let output = <Raised<Sender, Args> as InvokeArg<'a>>::convert((sender, args));
        self.adapter.call(output)
    }
}

/// Handler for the event that a script of a page is about to open a dialog. The
/// closure gets the view that raised the event and the event's arguments.
pub struct ScriptDialogOpeningEventHandler<
    Sender: Clone,
    Args: Clone,
    F: FnMut(Raised<Sender, Args>) -> Result<(), Failure>,
> {
    adapter: EventCallback<Raised<Sender, Args>, F>,
}

impl<
    Sender: Clone,
    Args: Clone,
    F: FnMut(Raised<Sender, Args>) -> Result<(), Failure>,
> ScriptDialogOpeningEventHandler<Sender, Args, F> {
    /// The closure of the handler.
    pub closed spec fn closure(&self) -> F {
        self.adapter.closure()
    }

    /// A handler that calls `closure` each time the event is raised.
    pub fn create(closure: F) -> (handler: Self)
        ensures
            handler.closure() == closure,
    {
        ScriptDialogOpeningEventHandler { adapter: EventCallback::create(closure) }
    }

    /// The invocation method: answers one raising of the event.
    pub fn invoke<'a>(
        &mut self,
        sender: &'a Option<Sender>,
        args: &'a Option<Args>,
    ) -> (status: StatusCode) where Sender: 'a, Args: 'a
        requires
            accepts::<Raised<Sender, Args>, F>(old(self).closure(), (sender, args)),
        ensures
            final(self).closure() == old(self).closure(),
            answers::<Raised<Sender, Args>, F>(old(self).closure(), (sender, args), status),
    {
        let output = <Raised<Sender, Args> as InvokeArg<'a>>::convert((sender, args));
        self.adapter.call(output)
    }
}

/// Handler for the event that a page asks for a permission. The closure gets
/// the view that raised the event and the event's arguments.
pub struct PermissionRequestedEventHandler<
    Sender: Clone,
    Args: Clone,
    F: FnMut(Raised<Sender, Args>) -> Result<(), Failure>,
> {
    adapter: EventCallback<Raised<Sender, Args>, F>,
}

impl<
    Sender: Clone,
    Args: Clone,
    F: FnMut(Raised<Sender, Args>) -> Result<(), Failure>,
> PermissionRequestedEventHandler<Sender, Args, F> {
    /// The closure of the handler.
    pub closed spec fn closure(&self) -> F {
        self.adapter.closure()
    }

    /// A handler that calls `closure` each time the event is raised.
    pub fn create(closure: F) -> (handler: Self)
        ensures
            handler.closure() == closure,
    {
        PermissionRequestedEventHandler { adapter: EventCallback::create(closure) }
    }

    /// The invocation method: answers one raising of the event.
    pub fn invoke<'a>(
        &mut self,
        sender: &'a Option<Sender>,
        args: &'a Option<Args>,
    ) -> (status: StatusCode) where Sender: 'a, Args: 'a
        requires
            accepts::<Raised<Sender, Args>, F>(old(self).closure(), (sender, args)),
        ensures
            final(self).closure() == old(self).closure(),
            answers::<Raised<Sender, Args>, F>(old(self).closure(), (sender, args), status),
    {
        let output = <Raised<Sender, Args> as InvokeArg<'a>>::convert((sender, args));
        self.adapter.call(output)
    }
}

/// Handler for the event that a process of the browser has failed. The closure
/// gets the view that raised the event and the event's arguments.
pub struct ProcessFailedEventHandler<
    Sender: Clone,
    Args: Clone,
    F: FnMut(Raised<Sender, Args>) -> Result<(), Failure>,
> {
    adapter: EventCallback<Raised<Sender, Args>, F>,
}

impl<
    Sender: Clone,
    Args: Clone,
    F: FnMut(Raised<Sender, Args>) -> Result<(), Failure>,
> ProcessFailedEventHandler<Sender, Args, F> {
    /// The closure of the handler.
    pub closed spec fn closure(&self) -> F {
        self.adapter.closure()
    }

    /// A handler that calls `closure` each time the event is raised.
    pub fn create(closure: F) -> (handler: Self)
        ensures
            handler.closure() == closure,
    {
        ProcessFailedEventHandler { adapter: EventCallback::create(closure) }
    }

    /// The invocation method: answers one raising of the event.
    pub fn invoke<'a>(
        &mut self,
        sender: &'a Option<Sender>,
        args: &'a Option<Args>,
    ) -> (status: StatusCode) where Sender: 'a, Args: 'a
        requires
            accepts::<Raised<Sender, Args>, F>(old(self).closure(), (sender, args)),
        ensures
            final(self).closure() == old(self).closure(),
            answers::<Raised<Sender, Args>, F>(old(self).closure(), (sender, args), status),
    {
        let output = <Raised<Sender, Args> as InvokeArg<'a>>::convert((sender, args));
        self.adapter.call(output)
    }
}

/// Handler for the event that a page posts a message to its host. The closure
/// gets the view that raised the event and the event's arguments.
pub struct WebMessageReceivedEventHandler<
    Sender: Clone,
    Args: Clone,
    F: FnMut(Raised<Sender, Args>) -> Result<(), Failure>,
> {
    adapter: EventCallback<Raised<Sender, Args>, F>,
}

impl<
    Sender: Clone,
    Args: Clone,
    F: FnMut(Raised<Sender, Args>) -> Result<(), Failure>,
> WebMessageReceivedEventHandler<Sender, Args, F> {
    /// The closure of the handler.
    pub closed spec fn closure(&self) -> F {
        self.adapter.closure()
    }

    /// A handler that calls `closure` each time the event is raised.
    pub fn create(closure: F) -> (handler: Self)
        ensures
            handler.closure() == closure,
    {
        WebMessageReceivedEventHandler { adapter: EventCallback::create(closure) }
    }

    /// The invocation method: answers one raising of the event.
    pub fn invoke<'a>(
        &mut self,
        sender: &'a Option<Sender>,
        args: &'a Option<Args>,
    ) -> (status: StatusCode) where Sender: 'a, Args: 'a
        requires
            accepts::<Raised<Sender, Args>, F>(old(self).closure(), (sender, args)),
        ensures
            final(self).closure() == old(self).closure(),
            answers::<Raised<Sender, Args>, F>(old(self).closure(), (sender, args), status),
    {
        let output = <Raised<Sender, Args> as InvokeArg<'a>>::convert((sender, args));
        self.adapter.call(output)
    }
}

/// Handler for the event that a page asks for a new window. The closure gets
/// the view that raised the event and the event's arguments.
pub struct NewWindowRequestedEventHandler<
    Sender: Clone,
    Args: Clone,
    F: FnMut(Raised<Sender, Args>) -> Result<(), Failure>,
> {
    adapter: EventCallback<Raised<Sender, Args>, F>,
}

impl<
    Sender: Clone,
    Args: Clone,
    F: FnMut(Raised<Sender, Args>) -> Result<(), Failure>,
> NewWindowRequestedEventHandler<Sender, Args, F> {
    /// The closure of the handler.
    pub closed spec fn closure(&self) -> F {
        self.adapter.closure()
    }

    /// A handler that calls `closure` each time the event is raised.
    pub fn create(closure: F) -> (handler: Self)
        ensures
            handler.closure() == closure,
    {
        NewWindowRequestedEventHandler { adapter: EventCallback::create(closure) }
    }

    /// The invocation method: answers one raising of the event.
    pub fn invoke<'a>(
        &mut self,
        sender: &'a Option<Sender>,
        args: &'a Option<Args>,
    ) -> (status: StatusCode) where Sender: 'a, Args: 'a
        requires
            accepts::<Raised<Sender, Args>, F>(old(self).closure(), (sender, args)),
        ensures
            final(self).closure() == old(self).closure(),
            answers::<Raised<Sender, Args>, F>(old(self).closure(), (sender, args), status),
    {
        let output = <Raised<Sender, Args> as InvokeArg<'a>>::convert((sender, args));
        self.adapter.call(output)
    }
}

/// Handler for the event that the title of the document in a view changes. The
/// closure gets the view that raised the event and an untyped object that
/// carries nothing for this event.
pub struct DocumentTitleChangedEventHandler<
    Sender: Clone,
    Args: Clone,
    F: FnMut(Raised<Sender, Args>) -> Result<(), Failure>,
> {
    adapter: EventCallback<Raised<Sender, Args>, F>,
}

impl<
    Sender: Clone,
    Args: Clone,
    F: FnMut(Raised<Sender, Args>) -> Result<(), Failure>,
> DocumentTitleChangedEventHandler<Sender, Args, F> {
    /// The closure of the handler.
    pub closed spec fn closure(&self) -> F {
        self.adapter.closure()
    }

    /// A handler that calls `closure` each time the event is raised.
    pub fn create(closure: F) -> (handler: Self)
        ensures
            handler.closure() == closure,
    {
        DocumentTitleChangedEventHandler { adapter: EventCallback::create(closure) }
    }

    /// The invocation method: answers one raising of the event.
    pub fn invoke<'a>(
        &mut self,
        sender: &'a Option<Sender>,
        args: &'a Option<Args>,
    ) -> (status: StatusCode) where Sender: 'a, Args: 'a
        requires
            accepts::<Raised<Sender, Args>, F>(old(self).closure(), (sender, args)),
        ensures
            final(self).closure() == old(self).closure(),
            answers::<Raised<Sender, Args>, F>(old(self).closure(), (sender, args), status),
    {
        let output = <Raised<Sender, Args> as InvokeArg<'a>>::convert((sender, args));
        self.adapter.call(output)
    }
}

/// Handler for the event that an element of a page enters or leaves full
/// screen. The closure gets the view that raised the event and an untyped
/// object that carries nothing for this event.
pub struct ContainsFullScreenElementChangedEventHandler<
    Sender: Clone,
    Args: Clone,
    F: FnMut(Raised<Sender, Args>) -> Result<(), Failure>,
> {
    adapter: EventCallback<Raised<Sender, Args>, F>,
}

impl<
    Sender: Clone,
    Args: Clone,
    F: FnMut(Raised<Sender, Args>) -> Result<(), Failure>,
> ContainsFullScreenElementChangedEventHandler<Sender, Args, F> {
    /// The closure of the handler.
    pub closed spec fn closure(&self) -> F {
        self.adapter.closure()
    }

    /// A handler that calls `closure` each time the event is raised.
    pub fn create(closure: F) -> (handler: Self)
        ensures
            handler.closure() == closure,
    {
        ContainsFullScreenElementChangedEventHandler { adapter: EventCallback::create(closure) }
    }

    /// The invocation method: answers one raising of the event.
    pub fn invoke<'a>(
        &mut self,
        sender: &'a Option<Sender>,
        args: &'a Option<Args>,
    ) -> (status: StatusCode) where Sender: 'a, Args: 'a
        requires
            accepts::<Raised<Sender, Args>, F>(old(self).closure(), (sender, args)),
        ensures
            final(self).closure() == old(self).closure(),
            answers::<Raised<Sender, Args>, F>(old(self).closure(), (sender, args), status),
    {
        let output = <Raised<Sender, Args> as InvokeArg<'a>>::convert((sender, args));
        self.adapter.call(output)
    }
}

/// Handler for the event that a view requests a resource that matches a filter
/// of the host. The closure gets the view that raised the event and the event's
/// arguments.
pub struct WebResourceRequestedEventHandler<
    Sender: Clone,
    Args: Clone,
    F: FnMut(Raised<Sender, Args>) -> Result<(), Failure>,
> {
    adapter: EventCallback<Raised<Sender, Args>, F>,
}

impl<
    Sender: Clone,
    Args: Clone,
    F: FnMut(Raised<Sender, Args>) -> Result<(), Failure>,
> WebResourceRequestedEventHandler<Sender, Args, F> {
    /// The closure of the handler.
    pub closed spec fn closure(&self) -> F {
        self.adapter.closure()
    }

    /// A handler that calls `closure` each time the event is raised.
    pub fn create(closure: F) -> (handler: Self)
        ensures
            handler.closure() == closure,
    {
        WebResourceRequestedEventHandler { adapter: EventCallback::create(closure) }
    }

    /// The invocation method: answers one raising of the event.
    pub fn invoke<'a>(
        &mut self,
        sender: &'a Option<Sender>,
        args: &'a Option<Args>,
    ) -> (status: StatusCode) where Sender: 'a, Args: 'a
        requires
            accepts::<Raised<Sender, Args>, F>(old(self).closure(), (sender, args)),
        ensures
            final(self).closure() == old(self).closure(),
            answers::<Raised<Sender, Args>, F>(old(self).closure(), (sender, args), status),
    {
        let output = <Raised<Sender, Args> as InvokeArg<'a>>::convert((sender, args));
        self.adapter.call(output)
    }
}

/// Handler for the event that a page asks for its window to be closed. The
/// closure gets the view that raised the event and an untyped object that
/// carries nothing for this event.
pub struct WindowCloseRequestedEventHandler<
    Sender: Clone,
    Args: Clone,
    F: FnMut(Raised<Sender, Args>) -> Result<(), Failure>,
> {
    adapter: EventCallback<Raised<Sender, Args>, F>,
}

impl<
    Sender: Clone,
    Args: Clone,
    F: FnMut(Raised<Sender, Args>) -> Result<(), Failure>,
> WindowCloseRequestedEventHandler<Sender, Args, F> {
    /// The closure of the handler.
    pub closed spec fn closure(&self) -> F {
        self.adapter.closure()
    }

    /// A handler that calls `closure` each time the event is raised.
    pub fn create(closure: F) -> (handler: Self)
        ensures
            handler.closure() == closure,
    {
        WindowCloseRequestedEventHandler { adapter: EventCallback::create(closure) }
    }

    /// The invocation method: answers one raising of the event.
    pub fn invoke<'a>(
        &mut self,
        sender: &'a Option<Sender>,
        args: &'a Option<Args>,
    ) -> (status: StatusCode) where Sender: 'a, Args: 'a
        requires
            accepts::<Raised<Sender, Args>, F>(old(self).closure(), (sender, args)),
        ensures
            final(self).closure() == old(self).closure(),
            answers::<Raised<Sender, Args>, F>(old(self).closure(), (sender, args), status),
    {
        let output = <Raised<Sender, Args> as InvokeArg<'a>>::convert((sender, args));
        self.adapter.call(output)
    }
}

} // verus!
