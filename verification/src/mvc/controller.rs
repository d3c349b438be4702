use vstd::prelude::*;
use vstd::view::View as _;
use crate::interfaces::ICommandFactory;
use crate::interfaces::IController;
use crate::interfaces::IView;
use crate::mvc::Multiton;
use crate::mvc::lemma_released_nothing_to_take;
use crate::mvc::lemma_released_owns_nothing;
use crate::mvc::lemma_released_push;
use crate::mvc::released;
use crate::mvc::View;
use crate::mvc::ViewState;
use crate::patterns::Callback;
use crate::patterns::CallbackView;
use crate::patterns::Notification;
use crate::patterns::Observer;
use crate::patterns::ObserverView;
use crate::patterns::Owner;
use crate::patterns::OwnerView;

verus! {

/// The observer through which the controller of the core with `key`
/// receives a notification: it hands the notification to the controller and
/// belongs to it.
pub open spec fn command_observer<B>(key: Seq<char>) -> ObserverView<B> {
    ObserverView {
        callback: Some(CallbackView::Controller),
        owner: Some(OwnerView::Controller(key)),
    }
}

/// What binding a command to `name` does to the view of the core with
/// `key`: the first binding of a name appends the controller's observer
/// under that name, a later one changes nothing.
pub open spec fn view_after_binding<B>(
    bound: bool,
    view: ViewState<B>,
    key: Seq<char>,
    name: Seq<char>,
) -> ViewState<B> {
    if bound {
        view
    } else {
        view.with_observer(name, command_observer(key))
    }
}

/// What unbinding the command of `name` does to the view of the core with
/// `key`: where one was bound, the controller's observers leave the list of
/// that name.
pub open spec fn view_after_unbinding<B>(
    bound: bool,
    view: ViewState<B>,
    key: Seq<char>,
    name: Seq<char>,
) -> ViewState<B> {
    if bound {
        view.without_owner(name, OwnerView::Controller(key))
    } else {
        view
    }
}

/// Binding a command to a name twice makes one observer, and the second
/// factory is the one that stays bound: the second binding leaves the view
/// as the first left it, and where the name was free before, the first
/// appended exactly the controller's observer to the list of that name.
pub proof fn law_one_observer_per_command<B>(
    commands: Map<Seq<char>, Binding<B>>,
    view: ViewState<B>,
    key: Seq<char>,
    name: Seq<char>,
    first: Binding<B>,
    second: Binding<B>,
)
    ensures
        ({
            let commands1 = commands.insert(name, first);
            let view1 = view_after_binding(commands.contains_key(name), view, key, name);
            let commands2 = commands1.insert(name, second);
            let view2 = view_after_binding(commands1.contains_key(name), view1, key, name);
            &&& view2 == view1
            &&& commands2 == commands.insert(name, second)
            &&& commands2.contains_key(name)
            &&& commands2[name] == second
            &&& !commands.contains_key(name) ==> view2.observers_of(name) == view.observers_of(
                name,
            ).push(command_observer(key))
        }),
{
    assert(commands.insert(name, first).insert(name, second) =~= commands.insert(name, second));
}

/// Binding a command to a name and unbinding it again leaves no command
/// bound to the name, so that none runs for it, and leaves no observer of
/// the controller under the name.
pub proof fn law_command_round_trip<B>(
    commands: Map<Seq<char>, Binding<B>>,
    view: ViewState<B>,
    key: Seq<char>,
    name: Seq<char>,
    factory: Binding<B>,
)
    ensures
        ({
            let commands1 = commands.insert(name, factory);
            let view1 = view_after_binding(commands.contains_key(name), view, key, name);
            let commands2 = commands1.remove(name);
            let view2 = view_after_unbinding(commands1.contains_key(name), view1, key, name);
            &&& commands1.contains_key(name)
            &&& !commands2.contains_key(name)
            &&& forall|j: int|
                0 <= j < view2.observers_of(name).len() ==> !(#[trigger] view2.observers_of(
                    name,
                )[j]).owns(OwnerView::Controller(key))
        }),
{
    let view1 = view_after_binding(commands.contains_key(name), view, key, name);
    let owner = OwnerView::Controller(key);
    lemma_released_owns_nothing(view1.observers_of(name), owner);
    let view2 = view1.without_owner(name, owner);
    assert(view2.observers_of(name) =~= released(view1.observers_of(name), owner));
}

/// Binding a command to a free name and unbinding it again gives back the
/// view's observers as they were, where no list was empty and none of the
/// controller's observers stood under the name before.
pub proof fn law_command_round_trip_restores_view<B>(
    commands: Map<Seq<char>, Binding<B>>,
    view: ViewState<B>,
    key: Seq<char>,
    name: Seq<char>,
    factory: Binding<B>,
)
    requires
        !commands.contains_key(name),
        view.tidy(),
        forall|j: int|
            0 <= j < view.observers_of(name).len() ==> !(#[trigger] view.observers_of(
                name,
            )[j]).owns(OwnerView::Controller(key)),
    ensures
        ({
            let commands1 = commands.insert(name, factory);
            let view1 = view_after_binding(commands.contains_key(name), view, key, name);
            let view2 = view_after_unbinding(commands1.contains_key(name), view1, key, name);
            &&& view2 == view
            &&& commands1.remove(name) == commands
        }),
{
    let owner = OwnerView::Controller(key);
    let list = view.observers_of(name);
    let view1 = view.with_observer(name, command_observer(key));
    lemma_released_push(list, command_observer::<B>(key), owner);
    lemma_released_nothing_to_take(list, owner);
    assert(view1.observers_of(name) == list.push(command_observer(key)));
    assert(released(view1.observers_of(name), owner) == list);
    let view2 = view1.without_owner(name, owner);
    assert(view2.observers =~= view.observers);
    assert(commands.insert(name, factory).remove(name) =~= commands);
}

/// The command factory bound to one notification name, as the controller
/// holds it.
#[verifier::reject_recursive_types(B)]
pub struct Binding<B> {
    pub factory: Box<dyn ICommandFactory<B>>,
}

/// The command table of one core: for each notification name the factory
/// of the command that handles it.
#[verifier::reject_recursive_types(B)]
pub struct Controller<B> {
    key: String,
    commands: Multiton<Binding<B>>,
}

impl<B> Controller<B> {
    /// The key of the core this controller belongs to.
    pub closed spec fn key_text(&self) -> Seq<char> {
        self.key@
    }

    /// The factory bound to each notification name.
    pub closed spec fn commands(&self) -> Map<Seq<char>, Binding<B>> {
        self.commands@
    }

    /// A controller for the core with the given key, with no command bound.
    pub fn new(key: &str) -> (r: Self)
        ensures
            r.key_text() == key@,
            r.commands() == Map::<Seq<char>, Binding<B>>::empty(),
    {
        Controller { key: key.to_owned(), commands: Multiton::new() }
    }

    /// The controller cached under `key` in `controllers`; where there is
    /// none, `factory` builds one from the key, its initialisation hook
    /// runs, and it is cached first. With one already cached the factory is
    /// not called, and need not be callable.
    pub fn get_instance<'a, T: IController<B>, F: Fn(&str) -> T>(
        controllers: &'a mut Multiton<T>,
        key: &str,
        factory: F,
    ) -> (r: &'a mut T)
        requires
            !old(controllers)@.contains_key(key@) ==> call_requires(factory, (key,)),
        ensures
            old(controllers)@.contains_key(key@) ==> *r == old(controllers)@[key@],
            !old(controllers)@.contains_key(key@) ==> call_ensures(factory, (key,), *r),
            final(controllers)@ == old(controllers)@.insert(key@, *final(r)),
            final(controllers)@.dom() == old(controllers)@.dom().insert(key@),
            final(controllers)@[key@] == *final(r),
            forall|k: Seq<char>|
                k != key@ ==> #[trigger] final(controllers)@[k] == old(controllers)@[k],
    {
        let prepare = |instance: &T| { instance.initialize_controller(); };
        controllers.get_or_create_with(key, factory, prepare)
    }

    /// Binds `binding` to `notification_name`. The first binding of a name
    /// also registers, under that name, the one observer through which the
    /// controller is notified; a later binding only replaces the factory.
    pub fn bind_command(&mut self, view: &mut View<B>, notification_name: &str, binding: Binding<B>)
        ensures
            final(self).key_text() == old(self).key_text(),
            final(self).commands() == old(self).commands().insert(notification_name@, binding),
            final(self).commands().dom() == old(self).commands().dom().insert(notification_name@),
            forall|other: Seq<char>|
                other != notification_name@ ==> #[trigger] final(self).commands()[other] == old(
                    self,
                ).commands()[other],
            final(view).key_text() == old(view).key_text(),
            final(view).deliveries() == old(view).deliveries(),
            old(view).compact() ==> final(view).compact(),
            final(view).state() == view_after_binding(
                old(self).commands().contains_key(notification_name@),
                old(view).state(),
                old(self).key_text(),
                notification_name@,
            ),
            forall|name: Seq<char>| #[trigger] final(view).seated(name) == old(view).seated(name),
    {
        if !self.commands.contains(notification_name) {
            let observer = Observer::new(
                Some(Callback::Controller),
                Some(Owner::Controller(self.key.clone())),
            );
            view.register_observer(notification_name, observer);
        }
        self.commands.insert(notification_name, binding);
    }

    /// Evicts the controller cached under `key`, if any.
    pub fn remove_controller<T: IController<B>>(controllers: &mut Multiton<T>, key: &str)
        ensures
            final(controllers)@ == old(controllers)@.remove(key@),
    {
        controllers.remove(key);
    }
}

impl<B> IController<B> for Controller<B> {
    fn initialize_controller(&self) {
    }

    /// Binds `factory` to `notification_name`. The first binding of a name
    /// also registers, under that name, the one observer through which the
    /// controller is notified; a later binding only replaces the factory.
    fn register_command(
        &mut self,
        view: &mut View<B>,
        notification_name: &str,
        factory: Box<dyn ICommandFactory<B>>,
    )
        ensures
            final(self).key_text() == old(self).key_text(),
            final(self).commands() == old(self).commands().insert(
                notification_name@,
                Binding { factory },
            ),
            final(self).commands().dom() == old(self).commands().dom().insert(notification_name@),
            forall|other: Seq<char>|
                other != notification_name@ ==> #[trigger] final(self).commands()[other] == old(
                    self,
                ).commands()[other],
            final(view).key_text() == old(view).key_text(),
            final(view).deliveries() == old(view).deliveries(),
            old(view).compact() ==> final(view).compact(),
            final(view).state() == view_after_binding(
                old(self).commands().contains_key(notification_name@),
                old(view).state(),
                old(self).key_text(),
                notification_name@,
            ),
    {
        self.bind_command(view, notification_name, Binding { factory });
    }

    /// Builds a fresh command from the factory bound to the notification's
    /// name, binds it to this core and runs it on the notification.
    fn execute_command(&self, notification: &Notification<B>) -> (r: bool)
        ensures
            r == self.commands().contains_key(notification@.name),
    {
        match self.commands.get(notification.name()) {
            Some(binding) => {
                let mut fresh = binding.factory.create();
                fresh.command.initialize_notifier(self.key.as_str());
                fresh.command.execute(notification);
                true
            },
            None => false,
        }
    }

    fn has_command(&self, notification_name: &str) -> (r: bool)
        ensures
            r == self.commands().contains_key(notification_name@),
    {
        self.commands.contains(notification_name)
    }

    /// Unbinds the factory of `notification_name`; where one was bound, the
    /// controller's observers leave the view's list of that name.
    fn remove_command(&mut self, view: &mut View<B>, notification_name: &str)
        ensures
            final(self).key_text() == old(self).key_text(),
            final(self).commands() == old(self).commands().remove(notification_name@),
            final(self).commands().dom() == old(self).commands().dom().remove(notification_name@),
            forall|other: Seq<char>|
                other != notification_name@ ==> #[trigger] final(self).commands()[other] == old(
                    self,
                ).commands()[other],
            final(view).key_text() == old(view).key_text(),
            final(view).deliveries() == old(view).deliveries(),
            old(view).compact() ==> final(view).compact(),
            final(view).state() == view_after_unbinding(
                old(self).commands().contains_key(notification_name@),
                old(view).state(),
                old(self).key_text(),
                notification_name@,
            ),
    {
        match self.commands.remove(notification_name) {
            Some(_) => {
                let owner = Owner::Controller(self.key.clone());
                view.remove_observer(notification_name, &owner);
            },
            None => {},
        }
    }
}

} // verus!
