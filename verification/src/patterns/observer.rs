use vstd::prelude::*;
use crate::interfaces::IListener;
use crate::interfaces::IObserver;
use crate::patterns::Notification;

verus! {

/// The identity of whoever an observer was registered for. Two owners are
/// the same only if they have the same shape and the same identity within
/// that shape: a controller is known by its core's key, a mediator and any
/// other object by a handle.
pub enum Owner {
    /// The controller of the core with this key.
    Controller(String),
    /// The mediator with this handle.
    Mediator(u64),
    /// Any other object, known by this handle.
    Generic(u64),
}

/// The mathematical value of an [`Owner`].
pub enum OwnerView {
    Controller(Seq<char>),
    Mediator(u64),
    Generic(u64),
}

impl View for Owner {
    type V = OwnerView;

    open spec fn view(&self) -> OwnerView {
        match self {
            Owner::Controller(key) => OwnerView::Controller(key@),
            Owner::Mediator(handle) => OwnerView::Mediator(*handle),
            Owner::Generic(handle) => OwnerView::Generic(*handle),
        }
    }
}

impl Owner {
    /// Identity comparison: same shape and same identity.
    pub fn same(&self, other: &Owner) -> (r: bool)
        ensures
            r == (self@ == other@),
    {
        match (self, other) {
            (Owner::Controller(a), Owner::Controller(b)) => *a == *b,
            (Owner::Mediator(a), Owner::Mediator(b)) => *a == *b,
            (Owner::Generic(a), Owner::Generic(b)) => *a == *b,
            _ => false,
        }
    }
}

impl Clone for Owner {
    fn clone(&self) -> (r: Self)
        ensures
            r@ == self@,
    {
        match self {
            Owner::Controller(key) => Owner::Controller(key.clone()),
            Owner::Mediator(handle) => Owner::Mediator(*handle),
            Owner::Generic(handle) => Owner::Generic(*handle),
        }
    }
}

/// What an observer does with a notification.
#[verifier::reject_recursive_types(B)]
pub enum Callback<B> {
    /// Run this application callback.
    Listener(Box<dyn IListener<B>>),
    /// Hand the notification to the mediator registered under this name in
    /// the view that notifies.
    Mediator(String),
    /// Hand the notification to the notifying core's controller, which runs
    /// the command registered for the notification's name.
    Controller,
}

/// The mathematical value of a [`Callback`].
#[verifier::reject_recursive_types(B)]
pub enum CallbackView<B> {
    Listener(Box<dyn IListener<B>>),
    Mediator(Seq<char>),
    Controller,
}

impl<B> View for Callback<B> {
    type V = CallbackView<B>;

    open spec fn view(&self) -> CallbackView<B> {
        match self {
            Callback::Listener(listener) => CallbackView::Listener(*listener),
            Callback::Mediator(name) => CallbackView::Mediator(name@),
            Callback::Controller => CallbackView::Controller,
        }
    }
}

/// The mathematical value of an [`Observer`].
#[verifier::reject_recursive_types(B)]
pub struct ObserverView<B> {
    pub callback: Option<CallbackView<B>>,
    pub owner: Option<OwnerView>,
}

impl<B> ObserverView<B> {
    /// Whether the observer was registered for `owner`.
    pub open spec fn owns(self, owner: OwnerView) -> bool {
        self.owner == Some(owner)
    }
}

/// The value of an optional callback.
pub open spec fn callback_view<B>(notify: Option<Callback<B>>) -> Option<CallbackView<B>> {
    match notify {
        Some(c) => Some(c@),
        None => None,
    }
}

/// The value of an optional owner.
pub open spec fn owner_view(context: Option<Owner>) -> Option<OwnerView> {
    match context {
        Some(c) => Some(c@),
        None => None,
    }
}

/// A callback and the identity of its owner, both optional.
#[verifier::reject_recursive_types(B)]
pub struct Observer<B> {
    notify: Option<Callback<B>>,
    context: Option<Owner>,
}

impl<B> View for Observer<B> {
    type V = ObserverView<B>;

    closed spec fn view(&self) -> ObserverView<B> {
        ObserverView { callback: callback_view(self.notify), owner: owner_view(self.context) }
    }
}

impl<B> Observer<B> {
    /// Builds an observer from an optional callback and an optional owner.
    pub fn new(notify: Option<Callback<B>>, context: Option<Owner>) -> (r: Self)
        ensures
            r@.callback == callback_view(notify),
            r@.owner == owner_view(context),
    {
        Observer { notify, context }
    }
}

impl<B> IObserver<B> for Observer<B> {
    fn notify(&self) -> (r: Option<&Callback<B>>)
        ensures
            r is Some <==> self@.callback is Some,
            r matches Some(c) ==> self@.callback == Some(c@),
    {
        self.notify.as_ref()
    }

    fn set_notify(&mut self, notify: Option<Callback<B>>)
        ensures
            final(self)@.callback == callback_view(notify),
            final(self)@.owner == old(self)@.owner,
    {
        self.notify = notify;
    }

    fn context(&self) -> (r: Option<&Owner>)
        ensures
            r is Some <==> self@.owner is Some,
            r matches Some(c) ==> self@.owner == Some(c@),
    {
        self.context.as_ref()
    }

    fn set_context(&mut self, context: Option<Owner>)
        ensures
            final(self)@.callback == old(self)@.callback,
            final(self)@.owner == owner_view(context),
    {
        self.context = context;
    }

    /// Runs the observer's own callback on the notification. An observer
    /// without a callback is passed over, and so is one whose callback
    /// hands the notification to a mediator or to the controller: the
    /// view that holds the observer carries those out.
    fn notify_observer(&self, notification: &Notification<B>) {
        match &self.notify {
            Some(Callback::Listener(listener)) => listener.on_notification(notification),
            _ => {},
        }
    }

    fn compare_notify_context(&self, object: &Owner) -> (r: bool)
        ensures
            r == self@.owns(object@),
    {
        match &self.context {
            Some(context) => context.same(object),
            None => false,
        }
    }
}

} // verus!
