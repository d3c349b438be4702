use vstd::prelude::*;
use vstd::view::View as _;
use crate::interfaces::IController;
use crate::interfaces::IMediator;
use crate::interfaces::IObserver;
use crate::interfaces::IView;
use crate::mvc::delivery_of;
use crate::mvc::delivery_views;
use crate::mvc::mediator_observer;
use crate::mvc::released;
use crate::mvc::Delivery;
use crate::mvc::MediatorRecord;
use crate::mvc::Receipt;
use crate::mvc::Multiton;
use crate::mvc::ViewState;
use crate::mvc::lemma_released_push;
use crate::mvc::lemma_unsubscribed_keeps_registry;
use crate::patterns::Callback;
use crate::patterns::Notification;
use crate::patterns::Observer;
use crate::patterns::ObserverView;
use crate::patterns::Owner;
use crate::patterns::OwnerView;

verus! {

/// A registered mediator, as the view holds it.
#[verifier::reject_recursive_types(B)]
pub struct Seated<B> {
    pub mediator: Box<dyn IMediator<B>>,
}

/// A registered mediator with what the view recorded of it.
#[verifier::reject_recursive_types(B)]
pub struct Seat<B> {
    handle: u64,
    interests: Vec<String>,
    held: Seated<B>,
}

/// The values of a list of observers.
pub open spec fn observer_views<B>(observers: Seq<Observer<B>>) -> Seq<ObserverView<B>> {
    observers.map_values(|o: Observer<B>| o@)
}

/// The texts of a list of names.
pub open spec fn name_views(names: Seq<String>) -> Seq<Seq<char>> {
    names.map_values(|s: String| s@)
}

/// The notification registry of one core: the observers bound to each
/// notification name, and the mediators registered by name.
#[verifier::reject_recursive_types(B)]
pub struct View<B> {
    key: String,
    observers: Multiton<Vec<Observer<B>>>,
    mediators: Multiton<Seat<B>>,
    issued: u64,
    delivered: Ghost<Seq<Receipt>>,
}

/// Drops from `list` every observer registered for `owner`, keeping the
/// others in order.
fn strip<B>(list: &mut Vec<Observer<B>>, owner: &Owner)
    ensures
        observer_views(final(list)@) == released(observer_views(old(list)@), owner@),
{
    let ghost all = observer_views(list@);
    let ghost mut seen: int = 0;
    let mut i: usize = 0;
    proof {
        assert(all.take(0) =~= Seq::empty());
        assert(observer_views(list@).take(0) =~= Seq::empty());
        assert(all.skip(0) =~= all);
    }
    while i < list.len()
        invariant
            0 <= i <= list@.len(),
            0 <= seen <= all.len(),
            observer_views(list@).take(i as int) == released(all.take(seen), owner@),
            observer_views(list@).skip(i as int) == all.skip(seen),
        decreases list@.len() - i,
    {
        let ghost before = observer_views(list@);
        proof {
            assert(before.skip(i as int).len() == all.skip(seen).len());
            assert(seen < all.len());
            assert(before.skip(i as int)[0] == all.skip(seen)[0]);
            assert(all.take(seen + 1) =~= all.take(seen).push(all[seen]));
            lemma_released_push(all.take(seen), all[seen], owner@);
        }
        if list[i].compare_notify_context(owner) {
            list.remove(i);
            proof {
                let after = observer_views(list@);
                assert(after.take(i as int) =~= before.take(i as int));
                assert(after.skip(i as int) =~= before.skip(i as int).skip(1));
                assert(all.skip(seen + 1) =~= all.skip(seen).skip(1));
                seen = seen + 1;
            }
        } else {
            proof {
                assert(before.take(i as int + 1) =~= before.take(i as int).push(before[i as int]));
                assert(before.skip(i as int + 1) =~= before.skip(i as int).skip(1));
                assert(all.skip(seen + 1) =~= all.skip(seen).skip(1));
                seen = seen + 1;
            }
            i += 1;
        }
    }
    proof {
        assert(observer_views(list@).take(i as int) =~= observer_views(list@));
        assert(all.skip(seen).len() == 0);
        assert(all.take(seen) =~= all);
    }
}

impl<B> View<B> {
    /// The key of the core this view belongs to.
    pub closed spec fn key_text(&self) -> Seq<char> {
        self.key@
    }

    /// The value of the view.
    pub closed spec fn state(&self) -> ViewState<B> {
        ViewState {
            observers: Map::new(
                |name: Seq<char>|
                    self.observers@.contains_key(name) && self.observers@[name]@.len() > 0,
                |name: Seq<char>| observer_views(self.observers@[name]@),
            ),
            mediators: Map::new(
                |name: Seq<char>| self.mediators@.contains_key(name),
                |name: Seq<char>|
                    MediatorRecord {
                        handle: self.mediators@[name].handle,
                        interests: name_views(self.mediators@[name].interests@),
                    },
            ),
            issued: self.issued,
        }
    }

    /// The deliveries that the view has carried out since it was made, in
    /// the order it made them. This history is kept for reasoning only and
    /// takes no room when the program runs.
    pub closed spec fn deliveries(&self) -> Seq<Receipt> {
        self.delivered@
    }

    /// The mediator held under a name, where one is registered under it.
    pub closed spec fn seated(&self, name: Seq<char>) -> Seated<B> {
        self.mediators@[name].held
    }

    /// No notification name is stored with an empty list of observers: a
    /// name is stored exactly while it has observers. A new view is compact
    /// and every operation keeps it so.
    pub closed spec fn compact(&self) -> bool {
        forall|name: Seq<char>| #[trigger]
            self.observers@.contains_key(name) ==> self.observers@[name]@.len() > 0
    }

    /// The value of a view never has a name with an empty list.
    pub proof fn law_view_is_tidy(&self)
        ensures
            self.state().tidy(),
    {
    }

    /// The value of a view with nothing registered.
    pub open spec fn new_state() -> ViewState<B> {
        ViewState { observers: Map::empty(), mediators: Map::empty(), issued: 0 }
    }

    /// A view for the core with the given key, with nothing registered.
    pub fn new(key: &str) -> (r: Self)
        ensures
            r.key_text() == key@,
            r.state() == Self::new_state(),
            r.compact(),
            r.deliveries() == Seq::<Receipt>::empty(),
    {
        let r = View {
            key: key.to_owned(),
            observers: Multiton::new(),
            mediators: Multiton::new(),
            issued: 0,
            delivered: Ghost(Seq::empty()),
        };
        assert(r.state().observers =~= Map::<Seq<char>, Seq<ObserverView<B>>>::empty());
        assert(r.state().mediators =~= Map::<Seq<char>, MediatorRecord>::empty());
        r
    }

    /// The view cached under `key` in `views`; where there is none,
    /// `factory` builds one from the key, its initialisation hook runs, and
    /// it is cached first. With one already cached the factory is not
    /// called, and need not be callable.
    pub fn get_instance<'a, T: IView<B>, F: Fn(&str) -> T>(
        views: &'a mut Multiton<T>,
        key: &str,
        factory: F,
    ) -> (r: &'a mut T)
        requires
            !old(views)@.contains_key(key@) ==> call_requires(factory, (key,)),
        ensures
            old(views)@.contains_key(key@) ==> *r == old(views)@[key@],
            !old(views)@.contains_key(key@) ==> call_ensures(factory, (key,), *r),
            final(views)@ == old(views)@.insert(key@, *final(r)),
            final(views)@.dom() == old(views)@.dom().insert(key@),
            final(views)@[key@] == *final(r),
            forall|k: Seq<char>| k != key@ ==> #[trigger] final(views)@[k] == old(views)@[k],
    {
        let prepare = |instance: &T| { instance.initialize_view(); };
        views.get_or_create_with(key, factory, prepare)
    }

    /// Evicts the view cached under `key`, if any.
    pub fn remove_view<T: IView<B>>(views: &mut Multiton<T>, key: &str)
        ensures
            final(views)@ == old(views)@.remove(key@),
    {
        views.remove(key);
    }

    /// Takes in a mediator whose name and interests are already known: it
    /// is recorded under the next handle, and one observer that forwards to
    /// it is appended under each interest, in their order. A mediator whose
    /// name is taken is refused, and so is one that comes when no handle is
    /// left; the view is then unchanged. Returns whether it was taken in.
    pub fn seat_mediator(
        &mut self,
        name: &str,
        interests: Vec<String>,
        mediator: Box<dyn IMediator<B>>,
    ) -> (r: bool)
        ensures
            final(self).key_text() == old(self).key_text(),
            final(self).deliveries() == old(self).deliveries(),
            old(self).compact() ==> final(self).compact(),
            r == old(self).state().admits(name@),
            final(self).state() == old(self).state().with_mediator(name@, name_views(interests@)),
            r ==> final(self).seated(name@) == (Seated { mediator }),
            forall|other: Seq<char>|
                other != name@ || !r ==> #[trigger] final(self).seated(other) == old(self).seated(
                    other,
                ),
    {
        if self.mediators.contains(name) || self.issued == u64::MAX {
            return false;
        }
        let handle = self.issued;
        let ghost names = name_views(interests@);
        let mut i: usize = 0;
        while i < interests.len()
            invariant
                i <= interests@.len(),
                names == name_views(interests@),
                handle == old(self).state().issued,
                self.issued == handle,
                self.key_text() == old(self).key_text(),
                self.deliveries() == old(self).deliveries(),
                old(self).compact() ==> self.compact(),
                self.mediators@ == old(self).mediators@,
                self.state() == old(self).state().subscribed(names.take(i as int), name@, handle),
            decreases interests@.len() - i,
        {
            let observer = Observer::new(
                Some(Callback::Mediator(name.to_owned())),
                Some(Owner::Mediator(handle)),
            );
            proof {
                assert(observer@ == mediator_observer::<B>(name@, handle));
                assert(names.take(i as int + 1).drop_last() =~= names.take(i as int));
                assert(names.take(i as int + 1).last() == interests@[i as int]@);
            }
            self.append_observer(interests[i].as_str(), observer);
            i += 1;
        }
        proof {
            assert(names.take(i as int) =~= names);
        }
        let seat = Seat { handle, interests, held: Seated { mediator } };
        self.mediators.insert(name, seat);
        self.issued = handle + 1;
        proof {
            let expected = old(self).state().with_mediator(name@, names);
            assert(old(self).state().admits(name@));
            assert(self.state().observers =~= expected.observers);
            assert(self.state().mediators.contains_key(name@));
            assert(self.state().mediators[name@] == MediatorRecord { handle, interests: names });
            assert forall|k: Seq<char>| k != name@ implies self.state().mediators.contains_key(k)
                == old(self).state().mediators.contains_key(k) by {}
            assert(self.state().mediators =~= expected.mediators);
        }
        true
    }

    /// Appends `observer` to the list of `notification_name`, leaving the
    /// mediators as they are.
    fn append_observer(&mut self, notification_name: &str, observer: Observer<B>)
        ensures
            final(self).key_text() == old(self).key_text(),
            final(self).deliveries() == old(self).deliveries(),
            old(self).compact() ==> final(self).compact(),
            final(self).mediators@ == old(self).mediators@,
            final(self).issued == old(self).issued,
            final(self).state() == old(self).state().with_observer(notification_name@, observer@),
    {
        let mut list = match self.observers.remove(notification_name) {
            Some(list) => list,
            None => Vec::new(),
        };
        let ghost before = observer_views(list@);
        list.push(observer);
        assert(observer_views(list@) =~= before.push(observer@));
        assert(before =~= old(self).state().observers_of(notification_name@));
        self.observers.insert(notification_name, list);
        assert(self.state().observers =~= old(self).state().with_observer(
            notification_name@,
            observer@,
        ).observers);
        assert(self.state().mediators =~= old(self).state().mediators);
    }

    /// What a notification called `notification_name` sets off as the view
    /// stands: one delivery for each observer registered under the name,
    /// in registration order.
    pub fn snapshot(&self, notification_name: &str) -> (r: Vec<Delivery>)
        ensures
            delivery_views(r@) == self.state().plan(notification_name@),
    {
        let mut plan: Vec<Delivery> = Vec::new();
        match self.observers.get(notification_name) {
            Some(list) => {
                let ghost all = observer_views(list@);
                assert(all == self.state().observers_of(notification_name@));
                let mut i: usize = 0;
                while i < list.len()
                    invariant
                        i <= list@.len(),
                        all == observer_views(list@),
                        delivery_views(plan@) == all.take(i as int).map_values(
                            |o: ObserverView<B>| delivery_of(o),
                        ),
                    decreases list@.len() - i,
                {
                    let delivery = match list[i].notify() {
                        Some(Callback::Listener(_)) => Delivery::Listener,
                        Some(Callback::Mediator(name)) => Delivery::Mediator(name.clone()),
                        Some(Callback::Controller) => Delivery::Controller,
                        None => Delivery::Silent,
                    };
                    proof {
                        assert(delivery@ == delivery_of(all[i as int]));
                        assert(all.take(i as int + 1) =~= all.take(i as int).push(all[i as int]));
                        assert(delivery_views(plan@.push(delivery)) =~= delivery_views(plan@).push(
                            delivery@,
                        ));
                        assert(all.take(i as int).push(all[i as int]).map_values(
                            |o: ObserverView<B>| delivery_of(o),
                        ) =~= all.take(i as int).map_values(
                            |o: ObserverView<B>| delivery_of(o),
                        ).push(delivery_of(all[i as int])));
                    }
                    plan.push(delivery);
                    i += 1;
                }
                proof {
                    assert(all.take(i as int) =~= all);
                }
            },
            None => {
                assert(self.state().observers_of(notification_name@) =~= Seq::empty());
                assert(delivery_views(plan@) =~= self.state().plan(notification_name@));
            },
        }
        plan
    }

    /// Carries out one delivery of the notification, for the observer at
    /// `position` of the list under the notification's name: the
    /// observer's own callback is run, or the mediator of the given name
    /// handles the notification, or `controller` runs the command bound to
    /// it. Returns whether the delivery found whom it was for; one that did
    /// not is dropped. The registry stays as it is, and the delivery is
    /// entered last in the view's history of deliveries.
    pub fn deliver<C: IController<B>>(
        &mut self,
        controller: &C,
        notification: &Notification<B>,
        position: usize,
        delivery: &Delivery,
    ) -> (r: bool)
        ensures
            final(self).key_text() == old(self).key_text(),
            old(self).compact() ==> final(self).compact(),
            final(self).state() == old(self).state(),
            r == old(self).state().reaches(notification@.name, position as int, delivery@),
            final(self).deliveries() == old(self).deliveries().push(
                Receipt {
                    name: notification@.name,
                    position: position as int,
                    delivery: delivery@,
                    reached: r,
                },
            ),
    {
        let reached = match delivery {
            Delivery::Silent => false,
            Delivery::Listener => {
                match self.observers.get(notification.name()) {
                    Some(list) => {
                        assert(observer_views(list@) =~= self.state().observers_of(
                            notification@.name,
                        ));
                        if position < list.len() {
                            match list[position].notify() {
                                Some(Callback::Listener(listener)) => {
                                    listener.on_notification(notification);
                                    true
                                },
                                _ => false,
                            }
                        } else {
                            false
                        }
                    },
                    None => {
                        assert(self.state().observers_of(notification@.name) =~= Seq::empty());
                        false
                    },
                }
            },
            Delivery::Mediator(name) => {
                let found = match self.mediators.get_mut(name.as_str()) {
                    Some(seat) => {
                        seat.held.mediator.handle_notification(notification);
                        true
                    },
                    None => false,
                };
                assert(self.state().observers =~= old(self).state().observers);
                assert(self.state().mediators =~= old(self).state().mediators);
                found
            },
            Delivery::Controller => {
                controller.execute_command(notification);
                true
            },
        };
        self.delivered = Ghost(
            self.delivered@.push(
                Receipt {
                    name: notification@.name,
                    position: position as int,
                    delivery: delivery@,
                    reached,
                },
            ),
        );
        reached
    }

    /// Takes out the mediator registered under `mediator_name`: its record
    /// is dropped, its observers leave the list of every interest it
    /// declared on registration, and it is handed back as it was held.
    /// Without such a mediator nothing changes.
    pub fn unseat_mediator(&mut self, mediator_name: &str) -> (r: Option<Seated<B>>)
        ensures
            final(self).key_text() == old(self).key_text(),
            final(self).deliveries() == old(self).deliveries(),
            old(self).compact() ==> final(self).compact(),
            r == if old(self).state().mediators.contains_key(mediator_name@) {
                Some(old(self).seated(mediator_name@))
            } else {
                None
            },
            final(self).state() == old(self).state().without_mediator(mediator_name@),
            final(self).state().mediators == old(self).state().mediators.remove(mediator_name@),
            final(self).state().issued == old(self).state().issued,
            forall|other: Seq<char>|
                other != mediator_name@ ==> #[trigger] final(self).seated(other) == old(
                    self,
                ).seated(other),
    {
        match self.mediators.remove(mediator_name) {
            Some(seat) => {
                let owner = Owner::Mediator(seat.handle);
                let ghost names = name_views(seat.interests@);
                let ghost vacated = self.state();
                let ghost vacated_view = *self;
                proof {
                    let expected = ViewState {
                        mediators: old(self).state().mediators.remove(mediator_name@),
                        ..old(self).state()
                    };
                    assert(vacated.observers =~= expected.observers);
                    assert(vacated.mediators =~= expected.mediators);
                }
                let mut i: usize = 0;
                while i < seat.interests.len()
                    invariant
                        i <= seat.interests@.len(),
                        names == name_views(seat.interests@),
                        owner@ == OwnerView::Mediator(seat.handle),
                        self.key_text() == old(self).key_text(),
                        self.deliveries() == old(self).deliveries(),
                        old(self).compact() ==> self.compact(),
                        self.state() == vacated.unsubscribed(names.take(i as int), seat.handle),
                        forall|other: Seq<char>| #[trigger]
                            self.seated(other) == vacated_view.seated(other),
                    decreases seat.interests@.len() - i,
                {
                    proof {
                        assert(names.take(i as int + 1).drop_last() =~= names.take(i as int));
                        assert(names.take(i as int + 1).last() == seat.interests@[i as int]@);
                    }
                    self.remove_observer(seat.interests[i].as_str(), &owner);
                    i += 1;
                }
                proof {
                    assert(names.take(i as int) =~= names);
                    lemma_unsubscribed_keeps_registry(vacated, names, seat.handle);
                }
                Some(seat.held)
            },
            None => {
                assert(self.state().observers =~= old(self).state().observers);
                assert(self.state().mediators =~= old(self).state().mediators);
                None
            },
        }
    }

    /// How many observers are registered under `notification_name`.
    pub fn observer_count(&self, notification_name: &str) -> (r: usize)
        ensures
            r == self.state().observers_of(notification_name@).len(),
    {
        match self.observers.get(notification_name) {
            Some(list) => list.len(),
            None => 0,
        }
    }
}

impl<B> IView<B> for View<B> {
    fn initialize_view(&self) {
    }

    /// Appends `observer` to the list of `notification_name`.
    fn register_observer(&mut self, notification_name: &str, observer: Observer<B>)
        ensures
            final(self).key_text() == old(self).key_text(),
            final(self).deliveries() == old(self).deliveries(),
            old(self).compact() ==> final(self).compact(),
            final(self).state() == old(self).state().with_observer(notification_name@, observer@),
            forall|name: Seq<char>| #[trigger] final(self).seated(name) == old(self).seated(name),
    {
        self.append_observer(notification_name, observer);
    }

    /// Takes every observer registered for `context` off the list of
    /// `notification_name`; a list left empty is dropped with its name.
    fn remove_observer(&mut self, notification_name: &str, context: &Owner)
        ensures
            final(self).key_text() == old(self).key_text(),
            final(self).deliveries() == old(self).deliveries(),
            old(self).compact() ==> final(self).compact(),
            final(self).state() == old(self).state().without_owner(notification_name@, context@),
            forall|name: Seq<char>| #[trigger] final(self).seated(name) == old(self).seated(name),
    {
        match self.observers.remove(notification_name) {
            Some(mut list) => {
                let ghost before = observer_views(list@);
                assert(before =~= old(self).state().observers_of(notification_name@));
                strip(&mut list, context);
                if list.len() > 0 {
                    self.observers.insert(notification_name, list);
                }
            },
            None => {
                assert(old(self).state().observers_of(notification_name@) =~= Seq::empty());
            },
        }
        assert(self.state().observers =~= old(self).state().without_owner(
            notification_name@,
            context@,
        ).observers);
        assert(self.state().mediators =~= old(self).state().mediators);
    }

    /// Notifies the observers under the notification's name, each once, in
    /// the order they were registered. What is to be delivered is fixed by
    /// a [`View::snapshot`] before the first observer runs, and the
    /// deliveries are then carried out front to back: the view's history
    /// of deliveries grows by one round, that is by one delivery for each
    /// observer under the name, in list order, and by none for any other
    /// name. The registry is the same afterwards. Returns the number of
    /// deliveries.
    fn notify_observers<C: IController<B>>(
        &mut self,
        controller: &C,
        notification: &Notification<B>,
    ) -> (r: usize)
        ensures
            final(self).key_text() == old(self).key_text(),
            old(self).compact() ==> final(self).compact(),
            final(self).state() == old(self).state(),
            r == old(self).state().observers_of(notification@.name).len(),
            final(self).deliveries() == old(self).deliveries() + old(self).state().round(
                notification@.name,
            ),
    {
        let plan = self.snapshot(notification.name());
        let ghost round = self.state().round(notification@.name);
        assert(plan@.len() == delivery_views(plan@).len());
        assert(round.take(0) =~= Seq::empty());
        assert(self.deliveries() + round.take(0) =~= self.deliveries());
        let mut position: usize = 0;
        while position < plan.len()
            invariant
                position <= plan@.len(),
                plan@.len() == round.len(),
                delivery_views(plan@) == old(self).state().plan(notification@.name),
                round == old(self).state().round(notification@.name),
                self.key_text() == old(self).key_text(),
                old(self).compact() ==> self.compact(),
                self.state() == old(self).state(),
                self.deliveries() == old(self).deliveries() + round.take(position as int),
            decreases plan@.len() - position,
        {
            let ghost before = self.deliveries();
            self.deliver(controller, notification, position, &plan[position]);
            proof {
                assert(delivery_views(plan@)[position as int] == plan@[position as int]@);
                assert(round.take(position as int + 1) =~= round.take(position as int).push(
                    round[position as int],
                ));
                assert(self.deliveries() =~= old(self).deliveries() + round.take(
                    position as int + 1,
                ));
            }
            position += 1;
        }
        assert(round.take(position as int) =~= round);
        plan.len()
    }

    /// Registers `mediator` under the name it gives. A mediator whose name
    /// is taken, or that comes when no handle is left, is dropped without
    /// being asked anything more. Any other is asked for its interests and
    /// taken in with them: see [`View::seat_mediator`]. Once it is wired it
    /// is bound to this core and its registration hook is called.
    fn register_mediator(&mut self, mediator: Box<dyn IMediator<B>>)
        ensures
            final(self).key_text() == old(self).key_text(),
            final(self).deliveries() == old(self).deliveries(),
            old(self).compact() ==> final(self).compact(),
            exists|name: Seq<char>, interests: Seq<Seq<char>>|
                final(self).state() == old(self).state().with_mediator(name, interests),
    {
        let name = mediator.name().to_owned();
        if self.mediators.contains(name.as_str()) || self.issued == u64::MAX {
            assert(self.state() == old(self).state().with_mediator(name@, Seq::empty()));
            return ;
        }
        let interests = mediator.list_notification_interests();
        let ghost wanted = name_views(interests@);
        if self.seat_mediator(name.as_str(), interests, mediator) {
            let ghost seated = self.state();
            match self.mediators.get_mut(name.as_str()) {
                Some(seat) => {
                    seat.held.mediator.initialize_notifier(self.key.as_str());
                    seat.held.mediator.on_register();
                },
                None => {},
            }
            assert(self.state().observers =~= seated.observers);
            assert(self.state().mediators =~= seated.mediators);
        }
        assert(self.state() == old(self).state().with_mediator(name@, wanted));
    }

    fn retrieve_mediator(&self, mediator_name: &str) -> (r: Option<&Box<dyn IMediator<B>>>)
        ensures
            r is Some <==> self.state().mediators.contains_key(mediator_name@),
            r matches Some(mediator) ==> *mediator == self.seated(mediator_name@).mediator,
    {
        match self.mediators.get(mediator_name) {
            Some(seat) => Some(&seat.held.mediator),
            None => None,
        }
    }

    fn has_mediator(&self, mediator_name: &str) -> (r: bool)
        ensures
            r == self.state().mediators.contains_key(mediator_name@),
    {
        self.mediators.contains(mediator_name)
    }

    /// Removes the mediator registered under `mediator_name`: it is taken
    /// out with its observers as [`View::unseat_mediator`] does, its
    /// removal hook is called once, and it is handed back. Without such a
    /// mediator nothing changes.
    fn remove_mediator(&mut self, mediator_name: &str) -> (r: Option<Box<dyn IMediator<B>>>)
        ensures
            final(self).key_text() == old(self).key_text(),
            final(self).deliveries() == old(self).deliveries(),
            old(self).compact() ==> final(self).compact(),
            r is Some <==> old(self).state().mediators.contains_key(mediator_name@),
            final(self).state() == old(self).state().without_mediator(mediator_name@),
            final(self).state().mediators == old(self).state().mediators.remove(mediator_name@),
            final(self).state().issued == old(self).state().issued,
            forall|other: Seq<char>|
                other != mediator_name@ ==> #[trigger] final(self).seated(other) == old(
                    self,
                ).seated(other),
    {
        match self.unseat_mediator(mediator_name) {
            Some(held) => {
                let mut mediator = held.mediator;
                mediator.on_remove();
                Some(mediator)
            },
            None => None,
        }
    }
}

} // verus!
