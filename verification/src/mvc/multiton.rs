use vstd::prelude::*;

verus! {

/// One cached instance under its key.
struct Slot<T> {
    key: String,
    value: T,
}

/// The map that a sequence of slots stands for: each key with the value
/// of the last slot that carries it.
spec fn cached<T>(slots: Seq<Slot<T>>) -> Map<Seq<char>, T>
    decreases slots.len(),
{
    if slots.len() == 0 {
        Map::empty()
    } else {
        cached(slots.drop_last()).insert(slots.last().key@, slots.last().value)
    }
}

/// A key that no slot carries is not in the map.
proof fn lemma_absent<T>(slots: Seq<Slot<T>>, k: Seq<char>)
    requires
        forall|i: int| 0 <= i < slots.len() ==> (#[trigger] slots[i]).key@ != k,
    ensures
        !cached(slots).contains_key(k),
    decreases slots.len(),
{
    if slots.len() > 0 {
        assert(slots.last().key@ != k);
        assert forall|i: int| 0 <= i < slots.drop_last().len() implies (
        #[trigger] slots.drop_last()[i]).key@ != k by {
            assert(slots.drop_last()[i] == slots[i]);
        }
        lemma_absent(slots.drop_last(), k);
    }
}

/// The last slot that carries a key holds what the map has under it.
proof fn lemma_last_wins<T>(slots: Seq<Slot<T>>, i: int)
    requires
        0 <= i < slots.len(),
        forall|j: int| i < j < slots.len() ==> (#[trigger] slots[j]).key@ != slots[i].key@,
    ensures
        cached(slots).contains_key(slots[i].key@),
        cached(slots)[slots[i].key@] == slots[i].value,
    decreases slots.len(),
{
    if i < slots.len() - 1 {
        assert(slots.last().key@ != slots[i].key@);
        assert(slots.drop_last()[i] == slots[i]);
        assert forall|j: int| i < j < slots.drop_last().len() implies (
        #[trigger] slots.drop_last()[j]).key@ != slots.drop_last()[i].key@ by {
            assert(slots.drop_last()[j] == slots[j]);
        }
        lemma_last_wins(slots.drop_last(), i);
    }
}

/// A new value in the last slot that carries a key replaces what the map
/// has under that key, and nothing else.
proof fn lemma_replaced<T>(before: Seq<Slot<T>>, after: Seq<Slot<T>>, i: int)
    requires
        0 <= i < before.len(),
        after.len() == before.len(),
        forall|j: int| 0 <= j < before.len() && j != i ==> after[j] == before[j],
        after[i].key == before[i].key,
        forall|j: int| i < j < before.len() ==> (#[trigger] before[j]).key@ != before[i].key@,
    ensures
        cached(after) =~= cached(before).insert(before[i].key@, after[i].value),
    decreases before.len(),
{
    if i < before.len() - 1 {
        let b = before.drop_last();
        let a = after.drop_last();
        assert(before.last().key@ != before[i].key@);
        assert(after.last() == before.last());
        assert forall|j: int| 0 <= j < b.len() && j != i implies a[j] == b[j] by {
            assert(a[j] == after[j]);
            assert(b[j] == before[j]);
        }
        assert forall|j: int| i < j < b.len() implies (#[trigger] b[j]).key@ != b[i].key@ by {
            assert(b[j] == before[j]);
        }
        lemma_replaced(b, a, i);
    } else {
        assert(after.drop_last() =~= before.drop_last());
    }
}

/// Taking one slot out leaves every other key's entry as it was.
proof fn lemma_taken_out<T>(slots: Seq<Slot<T>>, i: int, k: Seq<char>)
    requires
        0 <= i < slots.len(),
        k != slots[i].key@,
    ensures
        cached(slots.remove(i)).contains_key(k) == cached(slots).contains_key(k),
        cached(slots).contains_key(k) ==> cached(slots.remove(i))[k] == cached(slots)[k],
    decreases slots.len(),
{
    if i < slots.len() - 1 {
        assert(slots.remove(i).drop_last() =~= slots.drop_last().remove(i));
        assert(slots.remove(i).last() == slots.last());
        assert(slots.drop_last()[i] == slots[i]);
        lemma_taken_out(slots.drop_last(), i, k);
    } else {
        assert(slots.remove(i) =~= slots.drop_last());
    }
}

/// A keyed registry that holds at most one instance per key. Its value is
/// the map from keys to instances.
///
/// The instances are kept in a list that is searched by key. An instance
/// is handed out by mutable reference and taken out whole when it is
/// removed, since what the registries hold cannot be copied; and every
/// operation is proved against the map with nothing assumed of how a
/// hasher treats a string. Registries are small: one entry per core,
/// notification name, mediator or proxy.
pub struct Multiton<T> {
    slots: Vec<Slot<T>>,
}

impl<T> View for Multiton<T> {
    type V = Map<Seq<char>, T>;

    closed spec fn view(&self) -> Map<Seq<char>, T> {
        cached(self.slots@)
    }
}

impl<T> Multiton<T> {
    /// The last slot that carries `key`, if any.
    fn position(&self, key: &String) -> (r: Option<usize>)
        ensures
            match r {
                Some(i) => i < self.slots@.len() && self.slots@[i as int].key@ == key@ && (forall|
                    j: int,
                |
                    i < j < self.slots@.len() ==> (#[trigger] self.slots@[j]).key@ != key@)
                    && self@.contains_key(key@) && self@[key@] == self.slots@[i as int].value,
                None => (forall|j: int|
                    0 <= j < self.slots@.len() ==> (#[trigger] self.slots@[j]).key@ != key@)
                    && !self@.contains_key(key@),
            },
    {
        let mut i: usize = self.slots.len();
        while i > 0
            invariant
                i <= self.slots@.len(),
                forall|j: int| i <= j < self.slots@.len() ==> (#[trigger] self.slots@[j]).key@ != key@,
            decreases i,
        {
            i -= 1;
            if self.slots[i].key == *key {
                proof {
                    lemma_last_wins(self.slots@, i as int);
                }
                return Some(i);
            }
        }
        proof {
            lemma_absent(self.slots@, key@);
        }
        None
    }

    /// An empty registry.
    pub fn new() -> (r: Self)
        ensures
            r@ == Map::<Seq<char>, T>::empty(),
    {
        Multiton { slots: Vec::new() }
    }

    /// Whether an instance is cached under `key`.
    pub fn contains(&self, key: &str) -> (r: bool)
        ensures
            r == self@.contains_key(key@),
    {
        let owned = key.to_owned();
        self.position(&owned).is_some()
    }

    /// The instance cached under `key`, if any.
    pub fn get(&self, key: &str) -> (r: Option<&T>)
        ensures
            r is Some <==> self@.contains_key(key@),
            r matches Some(v) ==> *v == self@[key@],
    {
        let owned = key.to_owned();
        match self.position(&owned) {
            Some(i) => Some(&self.slots[i].value),
            None => None,
        }
    }

    /// Mutable access to the instance cached under `key`, if any. Whatever
    /// the caller leaves there is what the registry then holds under `key`.
    pub fn get_mut(&mut self, key: &str) -> (r: Option<&mut T>)
        ensures
            r is Some <==> old(self)@.contains_key(key@),
            r matches Some(v) ==> *v == old(self)@[key@],
            r matches Some(v) ==> final(self)@ == old(self)@.insert(key@, *final(v)),
            r matches Some(v) ==> final(self)@[key@] == *final(v),
            r is None ==> final(self)@ == old(self)@,
            final(self)@.dom() == old(self)@.dom(),
            forall|k: Seq<char>| k != key@ ==> #[trigger] final(self)@[k] == old(self)@[k],
    {
        let owned = key.to_owned();
        match self.position(&owned) {
            Some(i) => {
                let ghost before = *self;
                assert forall|after: Self|
                    after.slots@.len() == before.slots@.len() && (forall|j: int|
                        0 <= j < before.slots@.len() && j != i ==> after.slots@[j]
                            == before.slots@[j]) && after.slots@[i as int].key
                        == before.slots@[i as int].key implies #[trigger] after@
                    == before@.insert(key@, after.slots@[i as int].value) && after@.dom()
                    == before@.dom() && after@[key@] == after.slots@[i as int].value && (forall|
                    k: Seq<char>,
                | k != key@ ==> #[trigger] after@[k] == before@[k]) by {
                    lemma_replaced(before.slots@, after.slots@, i as int);
                    assert(after@.dom() =~= before@.dom());
                }
                Some(&mut self.slots[i].value)
            },
            None => None,
        }
    }

    /// The instance cached under `key`; where there is none, `factory` is
    /// called once with the key and what it returns is cached first. With an
    /// instance already cached the factory is not called, and need not be
    /// callable.
    pub fn get_or_create<F: Fn(&str) -> T>(&mut self, key: &str, factory: F) -> (r: &mut T)
        requires
            !old(self)@.contains_key(key@) ==> call_requires(factory, (key,)),
        ensures
            old(self)@.contains_key(key@) ==> *r == old(self)@[key@],
            !old(self)@.contains_key(key@) ==> call_ensures(factory, (key,), *r),
            final(self)@ == old(self)@.insert(key@, *final(r)),
            final(self)@.dom() == old(self)@.dom().insert(key@),
            final(self)@[key@] == *final(r),
            forall|k: Seq<char>| k != key@ ==> #[trigger] final(self)@[k] == old(self)@[k],
    {
        let prepare = |instance: &T| {};
        self.get_or_create_with(key, factory, prepare)
    }

    /// As [`Multiton::get_or_create`], with `prepare` run on a new instance
    /// before it is cached.
    pub(crate) fn get_or_create_with<F: Fn(&str) -> T, H: Fn(&T)>(
        &mut self,
        key: &str,
        factory: F,
        prepare: H,
    ) -> (r: &mut T)
        requires
            !old(self)@.contains_key(key@) ==> call_requires(factory, (key,)),
            forall|instance: T| call_requires(prepare, (&instance,)),
        ensures
            old(self)@.contains_key(key@) ==> *r == old(self)@[key@],
            !old(self)@.contains_key(key@) ==> call_ensures(factory, (key,), *r),
            final(self)@ == old(self)@.insert(key@, *final(r)),
            final(self)@.dom() == old(self)@.dom().insert(key@),
            final(self)@[key@] == *final(r),
            forall|k: Seq<char>| k != key@ ==> #[trigger] final(self)@[k] == old(self)@[k],
    {
        if !self.contains(key) {
            let value = factory(key);
            prepare(&value);
            self.insert(key, value);
        }
        let ghost held = self@;
        assert(held.contains_key(key@));
        assert(old(self)@.contains_key(key@) ==> held =~= old(self)@);
        assert forall|v: T| (#[trigger] held.insert(key@, v)) == old(self)@.insert(key@, v) by {
            assert(held.insert(key@, v) =~= old(self)@.insert(key@, v));
        }
        match self.get_mut(key) {
            Some(v) => v,
            None => vstd::pervasive::unreached(),
        }
    }

    /// Evicts and returns the instance cached under `key`; without one the
    /// registry is left as it is.
    pub fn remove(&mut self, key: &str) -> (r: Option<T>)
        ensures
            final(self)@ == old(self)@.remove(key@),
            r == if old(self)@.contains_key(key@) {
                Some(old(self)@[key@])
            } else {
                None
            },
            final(self)@.dom() == old(self)@.dom().remove(key@),
            forall|k: Seq<char>| k != key@ ==> #[trigger] final(self)@[k] == old(self)@[k],
    {
        let owned = key.to_owned();
        let mut found: Option<T> = None;
        let mut i: usize = self.slots.len();
        while i > 0
            invariant
                i <= self.slots@.len(),
                owned@ == key@,
                forall|j: int| i <= j < self.slots@.len() ==> (#[trigger] self.slots@[j]).key@ != key@,
                forall|k: Seq<char>|
                    k != key@ ==> (#[trigger] self@.contains_key(k)) == old(self)@.contains_key(k),
                forall|k: Seq<char>|
                    k != key@ && old(self)@.contains_key(k) ==> #[trigger] self@[k] == old(self)@[k],
                found is None ==> self@ == old(self)@,
                found is Some ==> old(self)@.contains_key(key@) && found == Some(old(self)@[key@]),
            decreases i,
        {
            i -= 1;
            if self.slots[i].key == owned {
                let ghost before = self.slots@;
                let ghost held = self@;
                proof {
                    lemma_last_wins(before, i as int);
                }
                let slot = self.slots.remove(i);
                proof {
                    assert(self.slots@ == before.remove(i as int));
                    assert forall|k: Seq<char>| k != key@ implies (#[trigger] self@.contains_key(k))
                        == held.contains_key(k) by {
                        lemma_taken_out(before, i as int, k);
                    }
                    assert forall|k: Seq<char>| k != key@ && held.contains_key(k) implies #[trigger] self@[k]
                        == held[k] by {
                        lemma_taken_out(before, i as int, k);
                    }
                }
                if found.is_none() {
                    found = Some(slot.value);
                }
            }
        }
        proof {
            lemma_absent(self.slots@, key@);
            assert(self@ =~= old(self)@.remove(key@));
            if found is None {
                assert(!old(self)@.contains_key(key@));
            }
        }
        found
    }

    /// Caches `value` under `key`, returning the instance it replaces.
    pub fn insert(&mut self, key: &str, value: T) -> (r: Option<T>)
        ensures
            final(self)@ == old(self)@.insert(key@, value),
            r == if old(self)@.contains_key(key@) {
                Some(old(self)@[key@])
            } else {
                None
            },
            final(self)@.dom() == old(self)@.dom().insert(key@),
            final(self)@[key@] == value,
            forall|k: Seq<char>| k != key@ ==> #[trigger] final(self)@[k] == old(self)@[k],
    {
        let previous = self.remove(key);
        let ghost before = self.slots@;
        self.slots.push(Slot { key: key.to_owned(), value });
        proof {
            assert(self.slots@.drop_last() =~= before);
            assert(old(self)@.remove(key@).insert(key@, value) =~= old(self)@.insert(key@, value));
        }
        previous
    }
}

} // verus!
