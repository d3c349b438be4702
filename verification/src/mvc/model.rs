use vstd::prelude::*;
use crate::interfaces::IModel;
use crate::interfaces::IProxy;
use crate::mvc::Multiton;

verus! {

/// A registered proxy, as the model holds it.
#[verifier::reject_recursive_types(D)]
pub struct Shelf<D> {
    pub proxy: Box<dyn IProxy<D>>,
}

/// The data registry of one core: the proxies registered by name.
#[verifier::reject_recursive_types(D)]
pub struct Model<D> {
    key: String,
    proxies: Multiton<Shelf<D>>,
}

impl<D> Model<D> {
    /// The key of the core this model belongs to.
    pub closed spec fn key_text(&self) -> Seq<char> {
        self.key@
    }

    /// The proxy registered under each name.
    pub closed spec fn proxies(&self) -> Map<Seq<char>, Shelf<D>> {
        self.proxies@
    }

    /// A model for the core with the given key, with no proxy registered.
    pub fn new(key: &str) -> (r: Self)
        ensures
            r.key_text() == key@,
            r.proxies() == Map::<Seq<char>, Shelf<D>>::empty(),
    {
        Model { key: key.to_owned(), proxies: Multiton::new() }
    }

    /// The model cached under `key` in `models`; where there is none,
    /// `factory` builds one from the key, its initialisation hook runs, and
    /// it is cached first. With one already cached the factory is not
    /// called, and need not be callable.
    pub fn get_instance<'a, T: IModel<D>, F: Fn(&str) -> T>(
        models: &'a mut Multiton<T>,
        key: &str,
        factory: F,
    ) -> (r: &'a mut T)
        requires
            !old(models)@.contains_key(key@) ==> call_requires(factory, (key,)),
        ensures
            old(models)@.contains_key(key@) ==> *r == old(models)@[key@],
            !old(models)@.contains_key(key@) ==> call_ensures(factory, (key,), *r),
            final(models)@ == old(models)@.insert(key@, *final(r)),
            final(models)@.dom() == old(models)@.dom().insert(key@),
            final(models)@[key@] == *final(r),
            forall|k: Seq<char>| k != key@ ==> #[trigger] final(models)@[k] == old(models)@[k],
    {
        let prepare = |instance: &T| { instance.initialize_model(); };
        models.get_or_create_with(key, factory, prepare)
    }

    /// Evicts the model cached under `key`, if any.
    pub fn remove_model<T: IModel<D>>(models: &mut Multiton<T>, key: &str)
        ensures
            final(models)@ == old(models)@.remove(key@),
    {
        models.remove(key);
    }

    /// Takes out the proxy registered under `name` and hands it back as it
    /// was held. Without such a proxy nothing changes.
    pub fn take_proxy(&mut self, name: &str) -> (r: Option<Shelf<D>>)
        ensures
            final(self).key_text() == old(self).key_text(),
            r == if old(self).proxies().contains_key(name@) {
                Some(old(self).proxies()[name@])
            } else {
                None
            },
            final(self).proxies() == old(self).proxies().remove(name@),
    {
        self.proxies.remove(name)
    }

    /// Holds `proxy` under `name`, in place of any proxy held there before.
    pub fn store_proxy(&mut self, name: &str, proxy: Box<dyn IProxy<D>>)
        ensures
            final(self).key_text() == old(self).key_text(),
            final(self).proxies() == old(self).proxies().insert(name@, Shelf { proxy }),
            final(self).proxies().dom() == old(self).proxies().dom().insert(name@),
            forall|other: Seq<char>|
                other != name@ ==> #[trigger] final(self).proxies()[other] == old(self).proxies()[other],
    {
        self.proxies.insert(name, Shelf { proxy });
    }
}

impl<D> IModel<D> for Model<D> {
    fn initialize_model(&self) {
    }

    /// Registers `proxy` under the name it gives, in place of any proxy
    /// registered there before; it is then bound to this core and its
    /// registration hook is called.
    fn register_proxy(&mut self, proxy: Box<dyn IProxy<D>>)
        ensures
            final(self).key_text() == old(self).key_text(),
            exists|name: Seq<char>|
                final(self).proxies().dom() == old(self).proxies().dom().insert(name),
    {
        let name = proxy.name().to_owned();
        self.store_proxy(name.as_str(), proxy);
        match self.proxies.get_mut(name.as_str()) {
            Some(held) => {
                held.proxy.initialize_notifier(self.key.as_str());
                held.proxy.on_register();
            },
            None => {},
        }
        assert(self.proxies().dom() == old(self).proxies().dom().insert(name@));
    }

    fn retrieve_proxy(&self, proxy_name: &str) -> (r: Option<&Box<dyn IProxy<D>>>)
        ensures
            r is Some <==> self.proxies().contains_key(proxy_name@),
            r matches Some(proxy) ==> *proxy == self.proxies()[proxy_name@].proxy,
    {
        match self.proxies.get(proxy_name) {
            Some(held) => Some(&held.proxy),
            None => None,
        }
    }

    fn has_proxy(&self, proxy_name: &str) -> (r: bool)
        ensures
            r == self.proxies().contains_key(proxy_name@),
    {
        self.proxies.contains(proxy_name)
    }

    /// Removes the proxy registered under `proxy_name` as
    /// [`Model::take_proxy`] does, calls its removal hook once and hands it
    /// back. Without such a proxy nothing changes.
    fn remove_proxy(&mut self, proxy_name: &str) -> (r: Option<Box<dyn IProxy<D>>>)
        ensures
            final(self).key_text() == old(self).key_text(),
            r is Some <==> old(self).proxies().contains_key(proxy_name@),
            final(self).proxies() == old(self).proxies().remove(proxy_name@),
    {
        match self.take_proxy(proxy_name) {
            Some(held) => {
                let mut proxy = held.proxy;
                proxy.on_remove();
                Some(proxy)
            },
            None => None,
        }
    }
}

} // verus!
