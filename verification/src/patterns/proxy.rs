use vstd::prelude::*;
use crate::interfaces::INotifier;
use crate::interfaces::IProxy;
use crate::mvc::Multiton;
use crate::patterns::notifier::core_found;
use crate::patterns::notifier::core_kept;
use crate::patterns::notifier::notification_sent;
use crate::patterns::Facade;
use crate::patterns::notifier::key_or_empty;
use crate::patterns::Notifier;

verus! {

/// The name a proxy gets where none is given.
pub open spec fn default_proxy_name() -> Seq<char> {
    "Proxy"@
}

/// The base proxy: a name and the data it holds. Its hooks do nothing.
pub struct Proxy<D> {
    notifier: Notifier,
    name: String,
    data: Option<D>,
}

impl<D> Proxy<D> {
    /// The name a proxy gets where none is given.
    pub const NAME: &'static str = "Proxy";

    /// The proxy's name.
    pub closed spec fn name_text(&self) -> Seq<char> {
        self.name@
    }

    /// The data the proxy holds.
    pub closed spec fn held_data(&self) -> Option<D> {
        self.data
    }

    /// The key of the core the proxy is bound to, if it is bound.
    pub closed spec fn bound_key(&self) -> Option<Seq<char>> {
        self.notifier.bound_key()
    }

    /// A proxy called `name`, or `"Proxy"` where none is given, holding
    /// the given data.
    pub fn new(name: Option<&str>, data: Option<D>) -> (r: Self)
        ensures
            r.name_text() == match name {
                Some(n) => n@,
                None => default_proxy_name(),
            },
            r.held_data() == data,
            r.bound_key() is None,
    {
        let name = match name {
            Some(n) => n.to_owned(),
            None => "Proxy".to_owned(),
        };
        Proxy { notifier: Notifier::new(), name, data }
    }

    /// The core this proxy is bound to, out of `facades`; where none is
    /// cached under its key yet, a core with nothing registered is cached
    /// there first. The proxy must have been bound to a core.
    pub fn facade<'a, B>(&self, facades: &'a mut Multiton<Facade<B, D>>) -> (r: &'a mut Facade<
        B,
        D,
    >)
        requires
            self.bound_key() is Some,
        ensures
            core_found(old(facades)@, self.bound_key().unwrap(), *r),
            core_kept(old(facades)@, final(facades)@, self.bound_key().unwrap(), *final(r)),
    {
        self.notifier.facade(facades)
    }

    /// Builds a notification from its parts and has the core this proxy is
    /// bound to notify its observers; returns how many there were. The
    /// proxy must have been bound to a core.
    pub fn send_notification<B>(
        &self,
        facades: &mut Multiton<Facade<B, D>>,
        notification_name: &str,
        body: Option<B>,
        type_: Option<&str>,
    ) -> (r: usize)
        requires
            self.bound_key() is Some,
        ensures
            notification_sent(
                old(facades)@,
                final(facades)@,
                self.bound_key().unwrap(),
                notification_name@,
                r,
            ),
    {
        self.notifier.send_notification(facades, notification_name, body, type_)
    }
}

impl<D: Send + Sync> IProxy<D> for Proxy<D> {
    fn name(&self) -> (r: &str)
        ensures
            r@ == self.name_text(),
    {
        self.name.as_str()
    }

    fn data(&self) -> (r: Option<&D>)
        ensures
            r is Some <==> self.held_data() is Some,
            r matches Some(d) ==> self.held_data() == Some(*d),
    {
        self.data.as_ref()
    }

    fn set_data(&mut self, data: Option<D>)
        ensures
            final(self).held_data() == data,
            final(self).name_text() == old(self).name_text(),
            final(self).bound_key() == old(self).bound_key(),
    {
        self.data = data;
    }
}

impl<D: Send + Sync> INotifier for Proxy<D> {
    fn key(&self) -> (r: &str)
        ensures
            r@ == key_or_empty(self.bound_key()),
    {
        self.notifier.key()
    }

    fn initialize_notifier(&mut self, key: &str)
        ensures
            final(self).bound_key() == Some(key@),
            final(self).name_text() == old(self).name_text(),
            final(self).held_data() == old(self).held_data(),
    {
        self.notifier.initialize_notifier(key);
    }
}

} // verus!
