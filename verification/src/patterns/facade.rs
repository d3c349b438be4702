use vstd::prelude::*;
use vstd::view::View as _;
use crate::interfaces::ICommandFactory;
use crate::interfaces::IController;
use crate::interfaces::IFacade;
use crate::interfaces::IMediator;
use crate::interfaces::IModel;
use crate::interfaces::INotifier;
use crate::interfaces::IProxy;
use crate::interfaces::IView;
use crate::mvc::view_after_binding;
use crate::mvc::view_after_unbinding;
use crate::mvc::Binding;
use crate::mvc::Controller;
use crate::mvc::Model;
use crate::mvc::Multiton;
use crate::mvc::Receipt;
use crate::mvc::Seated;
use crate::mvc::Shelf;
use crate::mvc::View;
use crate::mvc::ViewState;
use crate::patterns::Notification;

verus! {

/// One core: a controller, a model and a view under one key.
#[verifier::reject_recursive_types(B)]
#[verifier::reject_recursive_types(D)]
pub struct Facade<B, D> {
    key: String,
    controller: Controller<B>,
    model: Model<D>,
    view: View<B>,
}

impl<B, D> Facade<B, D> {
    /// The key this facade answers to.
    pub closed spec fn key_text(&self) -> Seq<char> {
        self.key@
    }

    /// The core's controller.
    pub closed spec fn controller_part(&self) -> Controller<B> {
        self.controller
    }

    /// The core's model.
    pub closed spec fn model_part(&self) -> Model<D> {
        self.model
    }

    /// The core's view.
    pub closed spec fn view_part(&self) -> View<B> {
        self.view
    }

    /// The key the core's controller was built with.
    pub open spec fn core_key(&self) -> Seq<char> {
        self.controller_part().key_text()
    }

    /// The value of the core's view.
    pub open spec fn view_state(&self) -> ViewState<B> {
        self.view_part().state()
    }

    /// The deliveries that the core's view has carried out, in order.
    pub open spec fn deliveries(&self) -> Seq<Receipt> {
        self.view_part().deliveries()
    }

    /// The mediator that the core's view holds under a name.
    pub open spec fn seated(&self, name: Seq<char>) -> Seated<B> {
        self.view_part().seated(name)
    }

    /// The core's view stores no notification name with an empty list of
    /// observers. A new core is so and every operation keeps it so.
    pub open spec fn compact(&self) -> bool {
        self.view_part().compact()
    }

    /// The command factories of the core's controller.
    pub open spec fn commands(&self) -> Map<Seq<char>, Binding<B>> {
        self.controller_part().commands()
    }

    /// The proxies of the core's model.
    pub open spec fn proxies(&self) -> Map<Seq<char>, Shelf<D>> {
        self.model_part().proxies()
    }

    /// The core's controller.
    pub fn controller(&self) -> (r: &Controller<B>)
        ensures
            *r == self.controller_part(),
    {
        &self.controller
    }

    /// The core's model.
    pub fn model(&self) -> (r: &Model<D>)
        ensures
            *r == self.model_part(),
    {
        &self.model
    }

    /// The core's view.
    pub fn view(&self) -> (r: &View<B>)
        ensures
            *r == self.view_part(),
    {
        &self.view
    }

    /// The core's model, to work on; nothing else of the core changes.
    pub fn model_mut(&mut self) -> (r: &mut Model<D>)
        ensures
            *r == old(self).model_part(),
            final(self).model_part() == *final(r),
            final(self).controller_part() == old(self).controller_part(),
            final(self).view_part() == old(self).view_part(),
            final(self).key_text() == old(self).key_text(),
    {
        &mut self.model
    }

    /// The core's view, to work on; nothing else of the core changes. This
    /// is the view that the core's commands and notifications go through.
    pub fn view_mut(&mut self) -> (r: &mut View<B>)
        ensures
            *r == old(self).view_part(),
            final(self).view_part() == *final(r),
            final(self).controller_part() == old(self).controller_part(),
            final(self).model_part() == old(self).model_part(),
            final(self).key_text() == old(self).key_text(),
    {
        &mut self.view
    }

    /// The core's controller and view together, to work on, as binding and
    /// unbinding a command needs both; nothing else of the core changes.
    pub fn controller_and_view_mut(&mut self) -> (r: (&mut Controller<B>, &mut View<B>))
        ensures
            *r.0 == old(self).controller_part(),
            *r.1 == old(self).view_part(),
            final(self).controller_part() == *final(r.0),
            final(self).view_part() == *final(r.1),
            final(self).model_part() == old(self).model_part(),
            final(self).key_text() == old(self).key_text(),
    {
        (&mut self.controller, &mut self.view)
    }

    /// A core with the given key and nothing registered.
    pub fn new(key: &str) -> (r: Self)
        ensures
            r.key_text() == key@,
            r.core_key() == key@,
            r.view_state() == View::<B>::new_state(),
            r.commands() == Map::<Seq<char>, Binding<B>>::empty(),
            r.proxies() == Map::<Seq<char>, Shelf<D>>::empty(),
            r.compact(),
            r.deliveries() == Seq::<Receipt>::empty(),
    {
        Facade {
            key: key.to_owned(),
            controller: Controller::new(key),
            model: Model::new(key),
            view: View::new(key),
        }
    }

    /// The core cached under `key` in `facades`; where there is none,
    /// `factory` builds one from the key, its initialisation hook runs, and
    /// it is cached first. With one already cached the factory is not
    /// called, and need not be callable.
    pub fn get_instance<'a, T: IFacade<B, D>, F: Fn(&str) -> T>(
        facades: &'a mut Multiton<T>,
        key: &str,
        factory: F,
    ) -> (r: &'a mut T)
        requires
            !old(facades)@.contains_key(key@) ==> call_requires(factory, (key,)),
        ensures
            old(facades)@.contains_key(key@) ==> *r == old(facades)@[key@],
            !old(facades)@.contains_key(key@) ==> call_ensures(factory, (key,), *r),
            final(facades)@ == old(facades)@.insert(key@, *final(r)),
            final(facades)@.dom() == old(facades)@.dom().insert(key@),
            final(facades)@[key@] == *final(r),
            forall|k: Seq<char>| k != key@ ==> #[trigger] final(facades)@[k] == old(facades)@[k],
    {
        let prepare = |instance: &T| { instance.initialize_facade(); };
        facades.get_or_create_with(key, factory, prepare)
    }

    /// Whether a core is cached under `key`.
    pub fn has_core<T: IFacade<B, D>>(facades: &Multiton<T>, key: &str) -> (r: bool)
        ensures
            r == facades@.contains_key(key@),
    {
        facades.contains(key)
    }

    /// Evicts the core cached under `key`, with its controller, model and
    /// view.
    pub fn remove_core<T: IFacade<B, D>>(facades: &mut Multiton<T>, key: &str)
        ensures
            final(facades)@ == old(facades)@.remove(key@),
            final(facades)@.dom() == old(facades)@.dom().remove(key@),
    {
        facades.remove(key);
    }
}

impl<B, D> IFacade<B, D> for Facade<B, D> {
    fn initialize_facade(&self) {
        IFacade::<B, D>::initialize_model(self);
        IFacade::<B, D>::initialize_controller(self);
        IFacade::<B, D>::initialize_view(self);
    }

    fn register_command(&mut self, notification_name: &str, factory: Box<dyn ICommandFactory<B>>)
        ensures
            final(self).key_text() == old(self).key_text(),
            final(self).core_key() == old(self).core_key(),
            final(self).deliveries() == old(self).deliveries(),
            old(self).compact() ==> final(self).compact(),
            final(self).proxies() == old(self).proxies(),
            final(self).commands() == old(self).commands().insert(
                notification_name@,
                Binding { factory },
            ),
            final(self).commands().dom() == old(self).commands().dom().insert(notification_name@),
            forall|other: Seq<char>|
                other != notification_name@ ==> #[trigger] final(self).commands()[other] == old(
                    self,
                ).commands()[other],
            final(self).view_state() == view_after_binding(
                old(self).commands().contains_key(notification_name@),
                old(self).view_state(),
                old(self).core_key(),
                notification_name@,
            ),
    {
        self.controller.bind_command(&mut self.view, notification_name, Binding { factory });
    }

    fn has_command(&self, notification_name: &str) -> (r: bool)
        ensures
            r == self.commands().contains_key(notification_name@),
    {
        self.controller.has_command(notification_name)
    }

    fn remove_command(&mut self, notification_name: &str)
        ensures
            final(self).key_text() == old(self).key_text(),
            final(self).core_key() == old(self).core_key(),
            final(self).deliveries() == old(self).deliveries(),
            old(self).compact() ==> final(self).compact(),
            final(self).proxies() == old(self).proxies(),
            final(self).commands() == old(self).commands().remove(notification_name@),
            final(self).commands().dom() == old(self).commands().dom().remove(notification_name@),
            forall|other: Seq<char>|
                other != notification_name@ ==> #[trigger] final(self).commands()[other] == old(
                    self,
                ).commands()[other],
            final(self).view_state() == view_after_unbinding(
                old(self).commands().contains_key(notification_name@),
                old(self).view_state(),
                old(self).core_key(),
                notification_name@,
            ),
    {
        self.controller.remove_command(&mut self.view, notification_name);
    }

    fn register_proxy(&mut self, proxy: Box<dyn IProxy<D>>)
        ensures
            final(self).key_text() == old(self).key_text(),
            final(self).core_key() == old(self).core_key(),
            final(self).deliveries() == old(self).deliveries(),
            old(self).compact() ==> final(self).compact(),
            final(self).commands() == old(self).commands(),
            final(self).view_state() == old(self).view_state(),
            exists|name: Seq<char>|
                final(self).proxies().dom() == old(self).proxies().dom().insert(name),
    {
        self.model.register_proxy(proxy);
        let ghost name = choose|name: Seq<char>|
            self.model.proxies().dom() == old(self).model.proxies().dom().insert(name);
        assert(self.proxies().dom() == old(self).proxies().dom().insert(name));
    }

    fn retrieve_proxy(&self, proxy_name: &str) -> (r: Option<&Box<dyn IProxy<D>>>)
        ensures
            r is Some <==> self.proxies().contains_key(proxy_name@),
            r matches Some(proxy) ==> *proxy == self.proxies()[proxy_name@].proxy,
    {
        self.model.retrieve_proxy(proxy_name)
    }

    fn has_proxy(&self, proxy_name: &str) -> (r: bool)
        ensures
            r == self.proxies().contains_key(proxy_name@),
    {
        self.model.has_proxy(proxy_name)
    }

    fn remove_proxy(&mut self, proxy_name: &str) -> (r: Option<Box<dyn IProxy<D>>>)
        ensures
            final(self).key_text() == old(self).key_text(),
            final(self).core_key() == old(self).core_key(),
            final(self).deliveries() == old(self).deliveries(),
            old(self).compact() ==> final(self).compact(),
            final(self).commands() == old(self).commands(),
            final(self).view_state() == old(self).view_state(),
            r is Some <==> old(self).proxies().contains_key(proxy_name@),
            final(self).proxies() == old(self).proxies().remove(proxy_name@),
    {
        self.model.remove_proxy(proxy_name)
    }

    fn register_mediator(&mut self, mediator: Box<dyn IMediator<B>>)
        ensures
            final(self).key_text() == old(self).key_text(),
            final(self).core_key() == old(self).core_key(),
            final(self).deliveries() == old(self).deliveries(),
            old(self).compact() ==> final(self).compact(),
            final(self).commands() == old(self).commands(),
            final(self).proxies() == old(self).proxies(),
            exists|name: Seq<char>, interests: Seq<Seq<char>>|
                final(self).view_state() == old(self).view_state().with_mediator(name, interests),
    {
        self.view.register_mediator(mediator);
        let ghost (name, interests) = choose|name: Seq<char>, interests: Seq<Seq<char>>|
            self.view.state() == old(self).view.state().with_mediator(name, interests);
        assert(self.view_state() == old(self).view_state().with_mediator(name, interests));
    }

    fn retrieve_mediator(&self, mediator_name: &str) -> (r: Option<&Box<dyn IMediator<B>>>)
        ensures
            r is Some <==> self.view_state().mediators.contains_key(mediator_name@),
            r matches Some(mediator) ==> *mediator == self.seated(mediator_name@).mediator,
    {
        self.view.retrieve_mediator(mediator_name)
    }

    fn has_mediator(&self, mediator_name: &str) -> (r: bool)
        ensures
            r == self.view_state().mediators.contains_key(mediator_name@),
    {
        self.view.has_mediator(mediator_name)
    }

    fn remove_mediator(&mut self, mediator_name: &str) -> (r: Option<Box<dyn IMediator<B>>>)
        ensures
            final(self).key_text() == old(self).key_text(),
            final(self).core_key() == old(self).core_key(),
            final(self).deliveries() == old(self).deliveries(),
            old(self).compact() ==> final(self).compact(),
            final(self).commands() == old(self).commands(),
            final(self).proxies() == old(self).proxies(),
            r is Some <==> old(self).view_state().mediators.contains_key(mediator_name@),
            final(self).view_state() == old(self).view_state().without_mediator(mediator_name@),
            final(self).view_state().mediators == old(self).view_state().mediators.remove(
                mediator_name@,
            ),
    {
        self.view.remove_mediator(mediator_name)
    }

    fn notify_observers(&mut self, notification: &Notification<B>) -> (r: usize)
        ensures
            final(self).key_text() == old(self).key_text(),
            final(self).core_key() == old(self).core_key(),
            final(self).deliveries() == old(self).deliveries() + old(self).view_state().round(
                notification@.name,
            ),
            old(self).compact() ==> final(self).compact(),
            final(self).commands() == old(self).commands(),
            final(self).proxies() == old(self).proxies(),
            final(self).view_state() == old(self).view_state(),
            r == old(self).view_state().observers_of(notification@.name).len(),
    {
        self.view.notify_observers(&self.controller, notification)
    }

    fn send_notification(&mut self, notification_name: &str, body: Option<B>, type_: Option<&str>) -> (r: usize)
        ensures
            final(self).key_text() == old(self).key_text(),
            final(self).core_key() == old(self).core_key(),
            final(self).deliveries() == old(self).deliveries() + old(self).view_state().round(
                notification_name@,
            ),
            old(self).compact() ==> final(self).compact(),
            final(self).commands() == old(self).commands(),
            final(self).proxies() == old(self).proxies(),
            final(self).view_state() == old(self).view_state(),
            r == old(self).view_state().observers_of(notification_name@).len(),
    {
        let notification = Notification::new(notification_name, body, type_);
        self.view.notify_observers(&self.controller, &notification)
    }
}

impl<B, D> INotifier for Facade<B, D> {
    fn key(&self) -> (r: &str)
        ensures
            r@ == self.key_text(),
    {
        self.key.as_str()
    }

    fn initialize_notifier(&mut self, key: &str)
        ensures
            final(self).key_text() == key@,
            final(self).core_key() == old(self).core_key(),
            final(self).deliveries() == old(self).deliveries(),
            old(self).compact() ==> final(self).compact(),
            final(self).commands() == old(self).commands(),
            final(self).proxies() == old(self).proxies(),
            final(self).view_state() == old(self).view_state(),
    {
        self.key = key.to_owned();
    }
}

} // verus!
