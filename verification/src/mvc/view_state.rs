use vstd::prelude::*;
use crate::patterns::CallbackView;
use crate::patterns::ObserverView;
use crate::patterns::OwnerView;

verus! {

/// What the view remembers of a registered mediator: the handle it was
/// given and the interests it declared on registration.
pub struct MediatorRecord {
    pub handle: u64,
    pub interests: Seq<Seq<char>>,
}

/// The mathematical value of a [`crate::mvc::View`]: for each notification name the
/// observers in registration order, for each mediator name its record, and
/// the number of handles given out so far.
#[verifier::reject_recursive_types(B)]
pub struct ViewState<B> {
    pub observers: Map<Seq<char>, Seq<ObserverView<B>>>,
    pub mediators: Map<Seq<char>, MediatorRecord>,
    pub issued: u64,
}

/// The test that an observer does not belong to `owner`.
pub open spec fn not_owned_by<B>(owner: OwnerView) -> spec_fn(ObserverView<B>) -> bool {
    |o: ObserverView<B>| !o.owns(owner)
}

/// The observers of a list that were not registered for `owner`, in the
/// order they had.
pub open spec fn released<B>(observers: Seq<ObserverView<B>>, owner: OwnerView) -> Seq<
    ObserverView<B>,
> {
    observers.filter(not_owned_by(owner))
}

/// The observer through which a mediator receives a notification: it hands
/// the notification to the mediator of that name and belongs to the
/// mediator with that handle.
pub open spec fn mediator_observer<B>(name: Seq<char>, handle: u64) -> ObserverView<B> {
    ObserverView {
        callback: Some(CallbackView::Mediator(name)),
        owner: Some(OwnerView::Mediator(handle)),
    }
}

/// What notifying one observer amounts to.
pub enum Delivery {
    /// The observer has no callback: nothing happens.
    Silent,
    /// The observer's own callback runs.
    Listener,
    /// The mediator registered under this name handles the notification.
    Mediator(String),
    /// The core's controller runs the command bound to the notification.
    Controller,
}

/// The mathematical value of a [`Delivery`].
pub enum DeliveryView {
    Silent,
    Listener,
    Mediator(Seq<char>),
    Controller,
}

impl View for Delivery {
    type V = DeliveryView;

    open spec fn view(&self) -> DeliveryView {
        match self {
            Delivery::Silent => DeliveryView::Silent,
            Delivery::Listener => DeliveryView::Listener,
            Delivery::Mediator(name) => DeliveryView::Mediator(name@),
            Delivery::Controller => DeliveryView::Controller,
        }
    }
}

/// What notifying the given observer amounts to.
pub open spec fn delivery_of<B>(observer: ObserverView<B>) -> DeliveryView {
    match observer.callback {
        None => DeliveryView::Silent,
        Some(CallbackView::Listener(_)) => DeliveryView::Listener,
        Some(CallbackView::Mediator(name)) => DeliveryView::Mediator(name),
        Some(CallbackView::Controller) => DeliveryView::Controller,
    }
}

/// The values of a list of deliveries.
pub open spec fn delivery_views(deliveries: Seq<Delivery>) -> Seq<DeliveryView> {
    deliveries.map_values(|d: Delivery| d@)
}

/// The record of one delivery: the notification's name, the place in the
/// list under that name of the observer it was for, what the delivery
/// was, and whether it found whom it was for.
pub struct Receipt {
    pub name: Seq<char>,
    pub position: int,
    pub delivery: DeliveryView,
    pub reached: bool,
}

impl<B> ViewState<B> {
    /// The deliveries of one round of notification under `name`: one for
    /// each observer registered under the name, in registration order.
    pub open spec fn round(self, name: Seq<char>) -> Seq<Receipt> {
        Seq::new(
            self.plan(name).len(),
            |i: int|
                Receipt {
                    name,
                    position: i,
                    delivery: self.plan(name)[i],
                    reached: self.reaches(name, i, self.plan(name)[i]),
                },
        )
    }

    /// What a notification called `name` sets off: one delivery for each
    /// observer registered under the name, in registration order.
    pub open spec fn plan(self, name: Seq<char>) -> Seq<DeliveryView> {
        self.observers_of(name).map_values(|o: ObserverView<B>| delivery_of(o))
    }

    /// Whether a delivery for the observer at `position` of the list under
    /// `name` finds whom it is for: a silent one is for nobody; the
    /// observer's own callback is there if the list reaches that far and
    /// the observer there has one; a mediator is there while it is
    /// registered under the name given; the controller is always there.
    pub open spec fn reaches(self, name: Seq<char>, position: int, delivery: DeliveryView) -> bool {
        match delivery {
            DeliveryView::Silent => false,
            DeliveryView::Listener => 0 <= position < self.observers_of(name).len() && delivery_of(
                self.observers_of(name)[position],
            ) == DeliveryView::Listener,
            DeliveryView::Mediator(mediator) => self.mediators.contains_key(mediator),
            DeliveryView::Controller => true,
        }
    }

    /// No notification name is kept with an empty list of observers.
    pub open spec fn tidy(self) -> bool {
        forall|name: Seq<char>| #[trigger]
            self.observers.contains_key(name) ==> self.observers[name].len() > 0
    }

    /// The observers registered under `name`, in registration order.
    pub open spec fn observers_of(self, name: Seq<char>) -> Seq<ObserverView<B>> {
        if self.observers.contains_key(name) {
            self.observers[name]
        } else {
            Seq::empty()
        }
    }

    /// The state with `observer` appended to the list of `name`.
    pub open spec fn with_observer(self, name: Seq<char>, observer: ObserverView<B>) -> Self {
        ViewState {
            observers: self.observers.insert(name, self.observers_of(name).push(observer)),
            ..self
        }
    }

    /// The state with every observer of `owner` taken off the list of
    /// `name`, and the name dropped where that empties its list.
    pub open spec fn without_owner(self, name: Seq<char>, owner: OwnerView) -> Self {
        let kept = released(self.observers_of(name), owner);
        ViewState {
            observers: if kept.len() == 0 {
                self.observers.remove(name)
            } else {
                self.observers.insert(name, kept)
            },
            ..self
        }
    }

    /// The state with one mediator observer appended under each of
    /// `interests`, in their order.
    pub open spec fn subscribed(self, interests: Seq<Seq<char>>, name: Seq<char>, handle: u64) -> Self
        decreases interests.len(),
    {
        if interests.len() == 0 {
            self
        } else {
            self.subscribed(interests.drop_last(), name, handle).with_observer(
                interests.last(),
                mediator_observer(name, handle),
            )
        }
    }

    /// The state with the observers of the mediator with `handle` taken off
    /// the list of each of `interests`.
    pub open spec fn unsubscribed(self, interests: Seq<Seq<char>>, handle: u64) -> Self
        decreases interests.len(),
    {
        if interests.len() == 0 {
            self
        } else {
            self.unsubscribed(interests.drop_last(), handle).without_owner(
                interests.last(),
                OwnerView::Mediator(handle),
            )
        }
    }

    /// Whether a mediator called `name` can be taken in: the name is free
    /// and a handle is left to give.
    pub open spec fn admits(self, name: Seq<char>) -> bool {
        !self.mediators.contains_key(name) && self.issued < u64::MAX
    }

    /// The state after registering a mediator called `name` that declares
    /// `interests`: unchanged where it is not admitted; else the mediator is
    /// recorded under the next handle and subscribed to its interests.
    pub open spec fn with_mediator(self, name: Seq<char>, interests: Seq<Seq<char>>) -> Self {
        if !self.admits(name) {
            self
        } else {
            let wired = self.subscribed(interests, name, self.issued);
            ViewState {
                observers: wired.observers,
                mediators: self.mediators.insert(
                    name,
                    MediatorRecord { handle: self.issued, interests },
                ),
                issued: (self.issued + 1) as u64,
            }
        }
    }

    /// The state after removing the mediator called `name`: unchanged where
    /// there is none; else its record is dropped, and then its observers
    /// leave the list of every interest it declared.
    pub open spec fn without_mediator(self, name: Seq<char>) -> Self {
        if !self.mediators.contains_key(name) {
            self
        } else {
            let record = self.mediators[name];
            let vacated = ViewState { mediators: self.mediators.remove(name), ..self };
            vacated.unsubscribed(record.interests, record.handle)
        }
    }
}

/// Taking out the observers of `owner` one by one: a kept observer is
/// appended to what was kept before it.
pub proof fn lemma_released_push<B>(
    observers: Seq<ObserverView<B>>,
    last: ObserverView<B>,
    owner: OwnerView,
)
    ensures
        released(observers.push(last), owner) == if last.owns(owner) {
            released(observers, owner)
        } else {
            released(observers, owner).push(last)
        },
{
    reveal(Seq::filter);
    assert(observers.push(last).drop_last() =~= observers);
}

/// Among the observers that are left once those of `owner` were taken out,
/// none belongs to `owner`, and none is new.
pub proof fn lemma_released_owns_nothing<B>(observers: Seq<ObserverView<B>>, owner: OwnerView)
    ensures
        released(observers, owner).len() <= observers.len(),
        forall|j: int|
            0 <= j < released(observers, owner).len() ==> !(#[trigger] released(
                observers,
                owner,
            )[j]).owns(owner),
    decreases observers.len(),
{
    reveal(Seq::filter);
    if observers.len() > 0 {
        lemma_released_owns_nothing(observers.drop_last(), owner);
    }
}

/// A list in which nothing belongs to `owner` is left as it is.
pub proof fn lemma_released_nothing_to_take<B>(observers: Seq<ObserverView<B>>, owner: OwnerView)
    requires
        forall|j: int| 0 <= j < observers.len() ==> !(#[trigger] observers[j]).owns(owner),
    ensures
        released(observers, owner) == observers,
    decreases observers.len(),
{
    reveal(Seq::filter);
    if observers.len() > 0 {
        assert forall|j: int| 0 <= j < observers.drop_last().len() implies !(
        #[trigger] observers.drop_last()[j]).owns(owner) by {
            assert(observers.drop_last()[j] == observers[j]);
        }
        lemma_released_nothing_to_take(observers.drop_last(), owner);
        assert(!observers[observers.len() - 1].owns(owner));
        assert(observers.drop_last().push(observers.last()) =~= observers);
    }
}

/// One round of notification is one delivery for each observer under the
/// name, in the order of the list, each to the observer at its own place;
/// a delivery through an observer's own callback, or to the controller,
/// always finds whom it is for.
pub proof fn law_round_is_one_delivery_per_observer<B>(state: ViewState<B>, name: Seq<char>, i: int)
    requires
        0 <= i < state.observers_of(name).len(),
    ensures
        state.round(name).len() == state.observers_of(name).len(),
        state.round(name)[i].name == name,
        state.round(name)[i].position == i,
        state.round(name)[i].delivery == delivery_of(state.observers_of(name)[i]),
        state.round(name)[i].reached == state.reaches(name, i, state.round(name)[i].delivery),
        state.round(name)[i].delivery == DeliveryView::Listener ==> state.round(name)[i].reached,
        state.round(name)[i].delivery == DeliveryView::Controller ==> state.round(name)[i].reached,
{
}

/// Registration order is notification order: an observer registered under
/// a name comes last in what a notification of that name sets off, behind
/// the deliveries that were due before, which stay as they were; under any
/// other name nothing changes.
pub proof fn law_registration_order<B>(
    state: ViewState<B>,
    name: Seq<char>,
    observer: ObserverView<B>,
    other: Seq<char>,
)
    ensures
        state.with_observer(name, observer).plan(name) == state.plan(name).push(
            delivery_of(observer),
        ),
        other != name ==> state.with_observer(name, observer).plan(other) == state.plan(other),
        state.plan(name).len() == state.observers_of(name).len(),
{
    assert(state.with_observer(name, observer).plan(name) =~= state.plan(name).push(
        delivery_of(observer),
    ));
}

/// Neither registering nor removing observers leaves a name with an empty
/// list behind.
pub proof fn law_lists_are_never_left_empty<B>(
    state: ViewState<B>,
    name: Seq<char>,
    observer: ObserverView<B>,
    owner: OwnerView,
)
    requires
        state.tidy(),
    ensures
        state.with_observer(name, observer).tidy(),
        state.without_owner(name, owner).tidy(),
{
}

/// The first registration under a mediator name wins: registering a second
/// mediator under the same name, whatever interests it declares, changes
/// nothing.
pub proof fn law_first_mediator_registration_wins<B>(
    state: ViewState<B>,
    name: Seq<char>,
    first: Seq<Seq<char>>,
    second: Seq<Seq<char>>,
)
    ensures
        state.with_mediator(name, first).with_mediator(name, second) == state.with_mediator(
            name,
            first,
        ),
{
}

/// Unsubscribing a mediator from a list of interests leaves, under each of
/// them, no observer that belongs to it.
pub proof fn lemma_unsubscribed_clears<B>(
    state: ViewState<B>,
    interests: Seq<Seq<char>>,
    handle: u64,
    name: Seq<char>,
)
    requires
        interests.contains(name),
    ensures
        forall|j: int|
            0 <= j < state.unsubscribed(interests, handle).observers_of(name).len() ==> !(
            #[trigger] state.unsubscribed(interests, handle).observers_of(name)[j]).owns(
                OwnerView::Mediator(handle),
            ),
        state.unsubscribed(interests, handle).mediators == state.mediators,
        state.unsubscribed(interests, handle).issued == state.issued,
    decreases interests.len(),
{
    let owner = OwnerView::Mediator(handle);
    let before = state.unsubscribed(interests.drop_last(), handle);
    lemma_unsubscribed_keeps_registry(state, interests.drop_last(), handle);
    let after = state.unsubscribed(interests, handle);
    assert(after == before.without_owner(interests.last(), owner));
    if interests.last() == name {
        let kept = released(before.observers_of(name), owner);
        lemma_released_owns_nothing(before.observers_of(name), owner);
        assert(after.observers_of(name) =~= kept);
    } else {
        let i = choose|i: int| 0 <= i < interests.len() && interests[i] == name;
        assert(interests.drop_last()[i] == name);
        lemma_unsubscribed_clears(state, interests.drop_last(), handle, name);
        assert(after.observers_of(name) == before.observers_of(name));
    }
}

/// Unsubscribing touches observers only.
pub proof fn lemma_unsubscribed_keeps_registry<B>(
    state: ViewState<B>,
    interests: Seq<Seq<char>>,
    handle: u64,
)
    ensures
        state.unsubscribed(interests, handle).mediators == state.mediators,
        state.unsubscribed(interests, handle).issued == state.issued,
    decreases interests.len(),
{
    if interests.len() > 0 {
        lemma_unsubscribed_keeps_registry(state, interests.drop_last(), handle);
    }
}

/// Removing a mediator removes the observers made for it: afterwards the
/// mediator is not registered, and under none of the interests it had
/// declared is there an observer that belongs to it.
pub proof fn law_removed_mediator_leaves_no_observer<B>(
    state: ViewState<B>,
    name: Seq<char>,
    interest: Seq<char>,
)
    requires
        state.mediators.contains_key(name),
        state.mediators[name].interests.contains(interest),
    ensures
        !state.without_mediator(name).mediators.contains_key(name),
        forall|j: int|
            0 <= j < state.without_mediator(name).observers_of(interest).len() ==> !(
            #[trigger] state.without_mediator(name).observers_of(interest)[j]).owns(
                OwnerView::Mediator(state.mediators[name].handle),
            ),
{
    let record = state.mediators[name];
    let vacated = ViewState { mediators: state.mediators.remove(name), ..state };
    lemma_unsubscribed_clears(vacated, record.interests, record.handle, interest);
}

/// Subscribing a mediator to a list of interests puts, under each of them,
/// an observer that hands notifications to it and belongs to it.
pub proof fn lemma_subscribed_reaches<B>(
    state: ViewState<B>,
    interests: Seq<Seq<char>>,
    name: Seq<char>,
    handle: u64,
    interest: Seq<char>,
)
    requires
        interests.contains(interest),
    ensures
        state.subscribed(interests, name, handle).observers_of(interest).contains(
            mediator_observer(name, handle),
        ),
    decreases interests.len(),
{
    let before = state.subscribed(interests.drop_last(), name, handle);
    let after = state.subscribed(interests, name, handle);
    let wired = mediator_observer::<B>(name, handle);
    assert(after == before.with_observer(interests.last(), wired));
    if interests.last() == interest {
        let list = after.observers_of(interest);
        assert(list == before.observers_of(interest).push(wired));
        assert(list[list.len() - 1] == wired);
    } else {
        let i = choose|i: int| 0 <= i < interests.len() && interests[i] == interest;
        assert(interests.drop_last()[i] == interest);
        lemma_subscribed_reaches(state, interests.drop_last(), name, handle, interest);
        assert(after.observers_of(interest) == before.observers_of(interest));
    }
}

/// A mediator that is taken in gets an observer under every interest it
/// declares.
pub proof fn law_registered_mediator_hears_every_interest<B>(
    state: ViewState<B>,
    name: Seq<char>,
    interests: Seq<Seq<char>>,
    interest: Seq<char>,
)
    requires
        state.admits(name),
        interests.contains(interest),
    ensures
        state.with_mediator(name, interests).observers_of(interest).contains(
            mediator_observer(name, state.issued),
        ),
{
    lemma_subscribed_reaches(state, interests, name, state.issued, interest);
}

/// A mediator that is taken in gets one observer for each interest it
/// declares: what a notification of its last interest sets off then ends
/// with the delivery to this mediator.
pub proof fn law_registered_mediator_is_wired<B>(
    state: ViewState<B>,
    name: Seq<char>,
    interests: Seq<Seq<char>>,
)
    requires
        state.admits(name),
        interests.len() > 0,
    ensures
        state.with_mediator(name, interests).mediators.contains_key(name),
        state.with_mediator(name, interests).mediators[name] == (MediatorRecord {
            handle: state.issued,
            interests,
        }),
        state.with_mediator(name, interests).plan(interests.last()).len() > 0,
        state.with_mediator(name, interests).plan(interests.last()).last()
            == DeliveryView::Mediator(name),
        state.with_mediator(name, interests).observers_of(interests.last()).last().owns(
            OwnerView::Mediator(state.issued),
        ),
{
}

/// Subscribing a mediator leaves the lists of other names as they were.
pub proof fn lemma_subscribed_elsewhere<B>(
    state: ViewState<B>,
    interests: Seq<Seq<char>>,
    name: Seq<char>,
    handle: u64,
    other: Seq<char>,
)
    requires
        !interests.contains(other),
    ensures
        state.subscribed(interests, name, handle).observers_of(other) == state.observers_of(other),
    decreases interests.len(),
{
    if interests.len() > 0 {
        assert(interests[interests.len() - 1] != other);
        assert forall|i: int| 0 <= i < interests.drop_last().len() implies interests.drop_last()[i]
            != other by {
            assert(interests[i] != other);
        }
        lemma_subscribed_elsewhere(state, interests.drop_last(), name, handle, other);
    }
}

/// What subscribing a mediator adds to a list belongs to that mediator:
/// with its observers taken out, the list is what it was without them.
pub proof fn lemma_subscribed_adds_own<B>(
    state: ViewState<B>,
    interests: Seq<Seq<char>>,
    name: Seq<char>,
    handle: u64,
    other: Seq<char>,
)
    ensures
        released(
            state.subscribed(interests, name, handle).observers_of(other),
            OwnerView::Mediator(handle),
        ) == released(state.observers_of(other), OwnerView::Mediator(handle)),
        state.subscribed(interests, name, handle).mediators == state.mediators,
        state.subscribed(interests, name, handle).issued == state.issued,
        state.tidy() ==> state.subscribed(interests, name, handle).tidy(),
    decreases interests.len(),
{
    if interests.len() > 0 {
        let before = state.subscribed(interests.drop_last(), name, handle);
        lemma_subscribed_adds_own(state, interests.drop_last(), name, handle, other);
        if interests.last() == other {
            lemma_released_push(
                before.observers_of(other),
                mediator_observer::<B>(name, handle),
                OwnerView::Mediator(handle),
            );
        }
    }
}

/// Unsubscribing a mediator takes its observers out of the list of each
/// interest and leaves every other list as it was.
pub proof fn lemma_unsubscribed_lists<B>(
    state: ViewState<B>,
    interests: Seq<Seq<char>>,
    handle: u64,
    other: Seq<char>,
)
    ensures
        state.unsubscribed(interests, handle).observers_of(other) == if interests.contains(other) {
            released(state.observers_of(other), OwnerView::Mediator(handle))
        } else {
            state.observers_of(other)
        },
        state.tidy() ==> state.unsubscribed(interests, handle).tidy(),
    decreases interests.len(),
{
    let owner = OwnerView::Mediator(handle);
    if interests.len() > 0 {
        let rest = interests.drop_last();
        let before = state.unsubscribed(rest, handle);
        let after = state.unsubscribed(interests, handle);
        lemma_unsubscribed_lists(state, rest, handle, other);
        assert(after == before.without_owner(interests.last(), owner));
        if rest.contains(other) {
            let i = choose|i: int| 0 <= i < rest.len() && rest[i] == other;
            assert(interests[i] == other);
        }
        if interests.last() == other {
            assert(interests[interests.len() - 1] == other);
            assert(after.observers_of(other) =~= released(before.observers_of(other), owner));
            if rest.contains(other) {
                lemma_released_owns_nothing(state.observers_of(other), owner);
                lemma_released_nothing_to_take(released(state.observers_of(other), owner), owner);
            }
        } else {
            assert(after.observers_of(other) == before.observers_of(other));
            if interests.contains(other) {
                let i = choose|i: int| 0 <= i < interests.len() && interests[i] == other;
                assert(rest[i] == other);
            }
        }
    }
}

/// Registering a mediator and removing it again: while it is registered,
/// each of its interests has the observer that hands notifications to
/// it; once it is removed it is not registered, none of its observers is
/// left under any of its interests, and no delivery reaches it.
pub proof fn law_mediator_round_trip<B>(
    state: ViewState<B>,
    name: Seq<char>,
    interests: Seq<Seq<char>>,
    interest: Seq<char>,
)
    requires
        state.admits(name),
        interests.contains(interest),
    ensures
        ({
            let registered = state.with_mediator(name, interests);
            let removed = registered.without_mediator(name);
            &&& registered.mediators.contains_key(name)
            &&& registered.observers_of(interest).contains(mediator_observer(name, state.issued))
            &&& !removed.mediators.contains_key(name)
            &&& forall|j: int|
                0 <= j < removed.observers_of(interest).len() ==> !(#[trigger] removed.observers_of(
                    interest,
                )[j]).owns(OwnerView::Mediator(state.issued))
            &&& forall|other: Seq<char>, position: int|
                !removed.reaches(other, position, DeliveryView::Mediator(name))
        }),
{
    let registered = state.with_mediator(name, interests);
    law_registered_mediator_hears_every_interest(state, name, interests, interest);
    law_removed_mediator_leaves_no_observer(registered, name, interest);
    let vacated = ViewState { mediators: registered.mediators.remove(name), ..registered };
    lemma_unsubscribed_keeps_registry(vacated, interests, state.issued);
}

/// Registering a mediator and removing it again gives back every list of
/// observers as it was, where no list was empty and the handle that the
/// mediator got had not been used for an owner before.
pub proof fn law_mediator_round_trip_restores_observers<B>(
    state: ViewState<B>,
    name: Seq<char>,
    interests: Seq<Seq<char>>,
)
    requires
        state.admits(name),
        state.tidy(),
        forall|other: Seq<char>, j: int|
            0 <= j < state.observers_of(other).len() ==> !(#[trigger] state.observers_of(
                other,
            )[j]).owns(OwnerView::Mediator(state.issued)),
    ensures
        state.with_mediator(name, interests).without_mediator(name).observers == state.observers,
        state.with_mediator(name, interests).without_mediator(name).mediators == state.mediators,
{
    let handle = state.issued;
    let owner = OwnerView::Mediator(handle);
    let wired = state.subscribed(interests, name, handle);
    let registered = state.with_mediator(name, interests);
    let vacated = ViewState { mediators: registered.mediators.remove(name), ..registered };
    let removed = registered.without_mediator(name);
    assert(removed == vacated.unsubscribed(interests, handle));
    lemma_unsubscribed_keeps_registry(vacated, interests, handle);
    assert(removed.mediators =~= state.mediators);
    lemma_subscribed_adds_own(state, interests, name, handle, name);
    assert(vacated.tidy());
    lemma_unsubscribed_lists(vacated, interests, handle, name);
    assert forall|other: Seq<char>| #[trigger] removed.observers_of(other) == state.observers_of(
        other,
    ) by {
        lemma_unsubscribed_lists(vacated, interests, handle, other);
        lemma_subscribed_adds_own(state, interests, name, handle, other);
        lemma_released_nothing_to_take(state.observers_of(other), owner);
        assert(vacated.observers_of(other) == wired.observers_of(other));
        if !interests.contains(other) {
            lemma_subscribed_elsewhere(state, interests, name, handle, other);
        }
    }
    assert forall|other: Seq<char>| #[trigger]
        removed.observers.contains_key(other) == state.observers.contains_key(other) by {
        assert(removed.observers_of(other) == state.observers_of(other));
    }
    assert forall|other: Seq<char>| #[trigger]
        removed.observers.contains_key(other) implies removed.observers[other]
        == state.observers[other] by {
        assert(removed.observers_of(other) == state.observers_of(other));
    }
    assert(removed.observers =~= state.observers);
}

} // verus!
