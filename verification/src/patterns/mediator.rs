use vstd::prelude::*;
use crate::interfaces::IMediator;
use crate::interfaces::INotifier;
use crate::mvc::Multiton;
use crate::patterns::notifier::core_found;
use crate::patterns::notifier::core_kept;
use crate::patterns::notifier::notification_sent;
use crate::patterns::Facade;
use crate::patterns::notifier::key_or_empty;
use crate::patterns::Notifier;

verus! {

/// The name a mediator gets where none is given.
pub open spec fn default_mediator_name() -> Seq<char> {
    "Mediator"@
}

/// The base mediator: a name and an optional view component. It declares
/// no interests and its hooks do nothing.
pub struct Mediator<C> {
    notifier: Notifier,
    name: String,
    component: Option<C>,
}

impl<C> Mediator<C> {
    /// The name a mediator gets where none is given.
    pub const NAME: &'static str = "Mediator";

    /// The mediator's name.
    pub closed spec fn name_text(&self) -> Seq<char> {
        self.name@
    }

    /// The mediator's view component.
    pub closed spec fn held_component(&self) -> Option<C> {
        self.component
    }

    /// The key of the core the mediator is bound to, if it is bound.
    pub closed spec fn bound_key(&self) -> Option<Seq<char>> {
        self.notifier.bound_key()
    }

    /// A mediator called `name`, or `"Mediator"` where none is given, with
    /// the given view component.
    pub fn new(name: Option<&str>, component: Option<C>) -> (r: Self)
        ensures
            r.name_text() == match name {
                Some(n) => n@,
                None => default_mediator_name(),
            },
            r.held_component() == component,
            r.bound_key() is None,
    {
        let name = match name {
            Some(n) => n.to_owned(),
            None => "Mediator".to_owned(),
        };
        Mediator { notifier: Notifier::new(), name, component }
    }

    /// The name the mediator is registered under.
    pub fn name(&self) -> (r: &str)
        ensures
            r@ == self.name_text(),
    {
        self.name.as_str()
    }

    /// The view component, if any.
    pub fn component(&self) -> (r: Option<&C>)
        ensures
            r is Some <==> self.held_component() is Some,
            r matches Some(c) ==> self.held_component() == Some(*c),
    {
        self.component.as_ref()
    }

    /// The core this mediator is bound to, out of `facades`; where none is cached
    /// under its key yet, a core with nothing registered is cached there
    /// first. The mediator must have been bound to a core.
    pub fn facade<'a, B, D>(&self, facades: &'a mut Multiton<Facade<B, D>>) -> (r: &'a mut Facade<
        B,
        D,
    >)
        requires
            self.bound_key() is Some,
        ensures
            core_found(old(facades)@, self.bound_key().unwrap(), *r),
            core_kept(old(facades)@, final(facades)@, self.bound_key().unwrap(), *final(r)),
    {
        self.notifier.facade(facades)
    }

    /// Builds a notification from its parts and has the core this mediator is
    /// bound to notify its observers; returns how many there were. The
    /// mediator must have been bound to a core.
    pub fn send_notification<B, D>(
        &self,
        facades: &mut Multiton<Facade<B, D>>,
        notification_name: &str,
        body: Option<B>,
        type_: Option<&str>,
    ) -> (r: usize)
        requires
            self.bound_key() is Some,
        ensures
            notification_sent(
                old(facades)@,
                final(facades)@,
                self.bound_key().unwrap(),
                notification_name@,
                r,
            ),
    {
        self.notifier.send_notification(facades, notification_name, body, type_)
    }

    /// Replaces the view component.
    pub fn set_component(&mut self, component: Option<C>)
        ensures
            final(self).held_component() == component,
            final(self).name_text() == old(self).name_text(),
            final(self).bound_key() == old(self).bound_key(),
    {
        self.component = component;
    }
}

impl<B, C: Send + Sync> IMediator<B> for Mediator<C> {
    fn name(&self) -> (r: &str)
        ensures
            r@ == self.name_text(),
    {
        Mediator::<C>::name(self)
    }
}

impl<C: Send + Sync> INotifier for Mediator<C> {
    fn key(&self) -> (r: &str)
        ensures
            r@ == key_or_empty(self.bound_key()),
    {
        self.notifier.key()
    }

    fn initialize_notifier(&mut self, key: &str)
        ensures
            final(self).bound_key() == Some(key@),
            final(self).name_text() == old(self).name_text(),
            final(self).held_component() == old(self).held_component(),
    {
        self.notifier.initialize_notifier(key);
    }
}

} // verus!
