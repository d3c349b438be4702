use std::any::Any;
use std::sync::{Arc, RwLock, Weak};
use puremvc::interfaces::{CommandBox, ICommand, ICommandFactory, IController, IMediator, IModel, INotifier, IProxy, IView};
use puremvc::mvc::{Controller, Model, Multiton, View};
use puremvc::patterns::{Mediator, Notification, Observer, Owner, Proxy, SimpleCommand};

type Body = Arc<dyn Any + Send + Sync>;
type Data = Arc<dyn Any + Send + Sync>;
type Component = Weak<dyn Any + Send + Sync>;

#[derive(Debug, PartialEq, Eq)]
enum State { Allocated, Released }

struct Resource { state: State }

/// A mediator that releases its resource when it is dropped.
struct TestMediator {
    mediator: Mediator<Component>,
    resource: Arc<RwLock<Resource>>,
}

impl TestMediator {
    fn new(resource: Arc<RwLock<Resource>>) -> Self {
        Self { mediator: Mediator::new(None, None), resource }
    }
}

impl Drop for TestMediator {
    fn drop(&mut self) { self.resource.write().unwrap().state = State::Released }
}

impl INotifier for TestMediator {
    fn key(&self) -> &str {
        self.mediator.key()
    }

    fn initialize_notifier(&mut self, key: &str) {
        self.mediator.initialize_notifier(key);
    }
}

impl IMediator<Body> for TestMediator {
    fn name(&self) -> &str { self.mediator.name() }
}

/// A view that releases its resource when it is dropped; it passes every
/// request on to the view it wraps, if it wraps one.
struct TestView {
    _key: String,
    view: Option<View<Body>>,
    resource: Arc<RwLock<Resource>>,
}

impl TestView {
    fn new(key: &str, resource: Arc<RwLock<Resource>>) -> Self {
        Self {
            _key: key.to_string(),
            view: None,
            resource,
        }
    }
}

impl Drop for TestView {
    fn drop(&mut self) { self.resource.write().unwrap().state = State::Released; }
}

impl IView<Body> for TestView {
    fn initialize_view(&self) {
    }

    fn register_observer(&mut self, notification_name: &str, observer: Observer<Body>) {
        if let Some(view) = &mut self.view { view.register_observer(notification_name, observer) }
    }

    fn remove_observer(&mut self, notification_name: &str, context: &Owner) {
        if let Some(view) = &mut self.view { view.remove_observer(notification_name, context) }
    }

    fn notify_observers<C: IController<Body>>(&mut self, controller: &C, notification: &Notification<Body>) -> usize {
        match &mut self.view {
            Some(view) => view.notify_observers(controller, notification),
            None => 0,
        }
    }

    fn register_mediator(&mut self, mediator: Box<dyn IMediator<Body>>) {
        if let Some(view) = &mut self.view { view.register_mediator(mediator) }
    }

    fn retrieve_mediator(&self, mediator_name: &str) -> Option<&Box<dyn IMediator<Body>>> {
        self.view.as_ref()?.retrieve_mediator(mediator_name)
    }

    fn has_mediator(&self, mediator_name: &str) -> bool {
        self.view.as_ref().map_or(false, |v| v.has_mediator(mediator_name))
    }

    fn remove_mediator(&mut self, mediator_name: &str) -> Option<Box<dyn IMediator<Body>>> {
        self.view.as_mut()?.remove_mediator(mediator_name)
    }
}

#[test]
fn test_mediator() {
    let resource = Arc::new(RwLock::new(Resource { state: State::Allocated }));
    {
        let mediator = TestMediator::new(resource.clone());
        drop(mediator);
        assert_eq!(resource.write().unwrap().state, State::Released);
    }
}

#[test]
fn test_view() {
    let resource = Arc::new(RwLock::new(Resource { state: State::Allocated }));
    {
        let mut views: Multiton<TestView> = Multiton::new();
        let mut view = TestView::new("TestView", resource.clone());
        let mediator = TestMediator::new(resource.clone());
        view.register_mediator(Box::new(mediator));
        View::<Body>::remove_view(&mut views, "TestView");
        drop(view);
        assert_eq!(resource.write().unwrap().state, State::Released);
    }
}

/// A proxy that releases its resource when it is dropped.
struct TestProxy {
    proxy: Proxy<Data>,
    resource: Arc<RwLock<Resource>>,
}

impl TestProxy {
    fn new(resource: Arc<RwLock<Resource>>) -> Self {
        Self { proxy: Proxy::new(None, None), resource }
    }
}

impl Drop for TestProxy {
    fn drop(&mut self) { self.resource.write().unwrap().state = State::Released }
}

impl INotifier for TestProxy {
    fn key(&self) -> &str {
        self.proxy.key()
    }

    fn initialize_notifier(&mut self, key: &str) {
        self.proxy.initialize_notifier(key);
    }
}

impl IProxy<Data> for TestProxy {
    fn name(&self) -> &str { self.proxy.name() }

    fn data(&self) -> Option<&Data> {
        self.proxy.data()
    }

    fn set_data(&mut self, data: Option<Data>) {
        self.proxy.set_data(data);
    }
}

/// A model that releases its resource when it is dropped; it passes every
/// request on to the model it wraps.
struct TestModel {
    model: Model<Data>,
    resource: Arc<RwLock<Resource>>,
}

impl TestModel {
    fn new(key: &str, resource: Arc<RwLock<Resource>>) -> Self {
        Self { model: Model::new(key), resource }
    }
}

impl Drop for TestModel {
    fn drop(&mut self) { self.resource.write().unwrap().state = State::Released }
}

impl IModel<Data> for TestModel {
    fn initialize_model(&self) {}

    fn register_proxy(&mut self, proxy: Box<dyn IProxy<Data>>) { self.model.register_proxy(proxy) }

    fn retrieve_proxy(&self, proxy_name: &str) -> Option<&Box<dyn IProxy<Data>>> { self.model.retrieve_proxy(proxy_name) }

    fn has_proxy(&self, proxy_name: &str) -> bool { self.model.has_proxy(proxy_name) }

    fn remove_proxy(&mut self, proxy_name: &str) -> Option<Box<dyn IProxy<Data>>> { self.model.remove_proxy(proxy_name) }
}

#[test]
fn test_proxy() {
    let resource = Arc::new(RwLock::new(Resource { state: State::Allocated }));
    {
        let proxy = TestProxy::new(resource.clone());
        drop(proxy);
        assert_eq!(resource.write().unwrap().state, State::Released);
    }
}

#[test]
fn test_model() {
    let resource1 = Arc::new(RwLock::new(Resource { state: State::Allocated }));
    let resource2 = Arc::new(RwLock::new(Resource { state: State::Allocated }));
    {
        let mut models: Multiton<TestModel> = Multiton::new();
        let model = Model::get_instance(&mut models, "TestModel", |k| TestModel::new(k, resource1.clone()));
        let proxy = TestProxy::new(resource2.clone());
        model.register_proxy(Box::new(proxy));
        model.remove_proxy(Proxy::<Data>::NAME);
        Model::<Data>::remove_model(&mut models, "TestModel");
        assert_eq!(resource1.read().unwrap().state, State::Released);
        assert_eq!(resource2.read().unwrap().state, State::Released);
    }
}

/// A command that does nothing.
struct TestCommand {
    command: SimpleCommand,
}

impl TestCommand {
    fn new() -> Self {
        Self { command: SimpleCommand::new() }
    }
}

impl INotifier for TestCommand {
    fn key(&self) -> &str {
        self.command.key()
    }

    fn initialize_notifier(&mut self, key: &str) {
        self.command.initialize_notifier(key);
    }
}

impl ICommand<Body> for TestCommand {
    fn execute(&mut self, _notification: &Notification<Body>) {}
}

/// Adapts a function to the factory capability.
struct Factory(fn() -> Box<dyn ICommand<Body>>);

impl ICommandFactory<Body> for Factory {
    fn create(&self) -> CommandBox<Body> {
        CommandBox { command: (self.0)() }
    }
}

/// A controller that releases its resource when it is dropped; it passes
/// every request on to the controller it wraps.
struct TestController {
    controller: Controller<Body>,
    resource: Arc<RwLock<Resource>>,
}

impl TestController {
    pub fn new(key: &str, resource: Arc<RwLock<Resource>>) -> Self {
        Self { controller: Controller::new(key), resource }
    }
}

impl Drop for TestController {
    fn drop(&mut self) {
        self.resource.write().unwrap().state = State::Released
    }
}

impl IController<Body> for TestController {
    fn initialize_controller(&self) {}

    fn register_command(&mut self, view: &mut View<Body>, notification_name: &str, factory: Box<dyn ICommandFactory<Body>>) {
        self.controller.register_command(view, notification_name, factory)
    }

    fn execute_command(&self, notification: &Notification<Body>) -> bool { self.controller.execute_command(notification) }

    fn has_command(&self, notification_name: &str) -> bool { self.controller.has_command(notification_name) }

    fn remove_command(&mut self, view: &mut View<Body>, notification_name: &str) {
        self.controller.remove_command(view, notification_name);
    }
}

#[test]
fn test_command() {
    {
        let command = TestCommand::new();
        drop(command);
    }
}

#[test]
fn test_controller() {
    let resource1 = Arc::new(RwLock::new(Resource { state: State::Allocated }));
    let resource2 = Arc::new(RwLock::new(Resource { state: State::Allocated }));
    {
        let mut views: Multiton<TestView> = Multiton::new();
        let mut controllers: Multiton<TestController> = Multiton::new();
        let mut wiring: View<Body> = View::new("TestController");
        View::get_instance(&mut views, "TestController", |k| TestView::new(k, resource1.clone()));
        let controller = Controller::get_instance(&mut controllers, "TestController", |k| TestController::new(k, resource2.clone()));
        controller.register_command(&mut wiring, "TestCommand", Box::new(Factory(|| Box::new(TestCommand::new()))));
        let notification = Notification::new("TestCommand", None, None);
        assert!(controller.execute_command(&notification));
        Controller::<Body>::remove_controller(&mut controllers, "TestController");
        View::<Body>::remove_view(&mut views, "TestController");
        assert_eq!(resource1.read().unwrap().state, State::Released);
        assert_eq!(resource2.read().unwrap().state, State::Released);
    }
}
