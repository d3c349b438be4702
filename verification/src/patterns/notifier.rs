use vstd::prelude::*;
use vstd::view::View as _;
use crate::interfaces::IFacade;
use crate::interfaces::INotifier;
use crate::mvc::Binding;
use crate::mvc::Multiton;
use crate::mvc::Receipt;
use crate::mvc::Shelf;
use crate::mvc::View;
use crate::patterns::Facade;

verus! {

/// The text of a core key that may not be set yet: empty until it is.
pub open spec fn key_or_empty(key: Option<Seq<char>>) -> Seq<char> {
    match key {
        Some(k) => k,
        None => Seq::empty(),
    }
}

/// The base notifier: it remembers the key of the core it was bound to.
pub struct Notifier {
    key: Option<String>,
}

impl Notifier {
    /// The key this notifier is bound to, if it is bound.
    pub closed spec fn bound_key(&self) -> Option<Seq<char>> {
        match self.key {
            Some(k) => Some(k@),
            None => None,
        }
    }

    /// A notifier that is not bound to any core yet.
    pub fn new() -> (r: Self)
        ensures
            r.bound_key() is None,
    {
        Notifier { key: None }
    }

    /// Whether the notifier has been bound to a core.
    pub fn is_initialized(&self) -> (r: bool)
        ensures
            r == self.bound_key() is Some,
    {
        self.key.is_some()
    }
}

/// Whether `core` is a core with the given key and nothing registered.
pub open spec fn is_new_core<B, D>(core: Facade<B, D>, key: Seq<char>) -> bool {
    &&& core.key_text() == key
    &&& core.core_key() == key
    &&& core.view_state() == View::<B>::new_state()
    &&& core.commands() == Map::<Seq<char>, Binding<B>>::empty()
    &&& core.proxies() == Map::<Seq<char>, Shelf<D>>::empty()
    &&& core.compact()
    &&& core.deliveries() == Seq::<Receipt>::empty()
}

/// Whether `found` is what looking up the core with `key` gives: the core
/// cached under the key, or a new one where none is cached.
pub open spec fn core_found<B, D>(
    cores: Map<Seq<char>, Facade<B, D>>,
    key: Seq<char>,
    found: Facade<B, D>,
) -> bool {
    if cores.contains_key(key) {
        found == cores[key]
    } else {
        is_new_core(found, key)
    }
}

/// Whether `after` is `before` with `kept` cached under `key` and every
/// other core as it was.
pub open spec fn core_kept<B, D>(
    before: Map<Seq<char>, Facade<B, D>>,
    after: Map<Seq<char>, Facade<B, D>>,
    key: Seq<char>,
    kept: Facade<B, D>,
) -> bool {
    &&& after.dom() == before.dom().insert(key)
    &&& after[key] == kept
    &&& forall|k: Seq<char>| k != key ==> #[trigger] after[k] == before[k]
}

/// Whether `after` and `count` are what sending a notification called
/// `name` to the core with `key` gives: the core is there, created where
/// it was not, with its view as it was but for the one round of
/// deliveries that its history grew by; every other core is as it was;
/// and `count` observers stood under the name.
pub open spec fn notification_sent<B, D>(
    before: Map<Seq<char>, Facade<B, D>>,
    after: Map<Seq<char>, Facade<B, D>>,
    key: Seq<char>,
    name: Seq<char>,
    count: usize,
) -> bool {
    &&& after.dom() == before.dom().insert(key)
    &&& forall|k: Seq<char>| k != key ==> #[trigger] after[k] == before[k]
    &&& after[key].view_state() == if before.contains_key(key) {
        before[key].view_state()
    } else {
        View::<B>::new_state()
    }
    &&& count == after[key].view_state().observers_of(name).len()
    &&& after[key].deliveries() == (if before.contains_key(key) {
        before[key].deliveries()
    } else {
        Seq::<Receipt>::empty()
    }) + after[key].view_state().round(name)
}

impl Notifier {
    /// The core this notifier is bound to, out of `facades`; where none is
    /// cached under its key yet, a core with nothing registered is cached
    /// there first. The notifier must have been bound to a core.
    pub fn facade<'a, B, D>(&self, facades: &'a mut Multiton<Facade<B, D>>) -> (r: &'a mut Facade<
        B,
        D,
    >)
        requires
            self.bound_key() is Some,
        ensures
            core_found(old(facades)@, self.bound_key().unwrap(), *r),
            core_kept(old(facades)@, final(facades)@, self.bound_key().unwrap(), *final(r)),
    {
        let build = |k: &str| -> (f: Facade<B, D>)
            ensures
                is_new_core(f, k@),
            { Facade::new(k) };
        Facade::get_instance(facades, self.key(), build)
    }

    /// Builds a notification from its parts and has the core this notifier
    /// is bound to notify its observers; returns how many there were. The
    /// notifier must have been bound to a core.
    pub fn send_notification<B, D>(
        &self,
        facades: &mut Multiton<Facade<B, D>>,
        notification_name: &str,
        body: Option<B>,
        type_: Option<&str>,
    ) -> (r: usize)
        requires
            self.bound_key() is Some,
        ensures
            notification_sent(
                old(facades)@,
                final(facades)@,
                self.bound_key().unwrap(),
                notification_name@,
                r,
            ),
    {
        let facade = self.facade(facades);
        facade.send_notification(notification_name, body, type_)
    }
}

impl INotifier for Notifier {
    fn key(&self) -> (r: &str)
        ensures
            r@ == key_or_empty(self.bound_key()),
    {
        match &self.key {
            Some(k) => k.as_str(),
            None => {
                proof {
                    reveal_strlit("");
                }
                assert(""@ =~= Seq::<char>::empty());
                ""
            },
        }
    }

    fn initialize_notifier(&mut self, key: &str)
        ensures
            final(self).bound_key() == Some(key@),
    {
        self.key = Some(key.to_owned());
    }
}

} // verus!
