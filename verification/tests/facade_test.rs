use std::any::Any;
use std::sync::{Arc, RwLock, Weak};
use puremvc::interfaces::{CommandBox, ICommand, ICommandFactory, IController, IFacade, IListener, IModel, INotifier, IView};
use puremvc::mvc::Multiton;
use puremvc::patterns::{Callback, Facade, Mediator, Notification, Observer, Owner, Proxy, SimpleCommand};

type Body = Arc<dyn Any + Send + Sync>;
type Data = Arc<dyn Any + Send + Sync>;
type Component = Weak<dyn Any + Send + Sync>;

struct Sprite {}

impl Default for Sprite {
    fn default() -> Self { Self {} }
}

struct FacadeTestVO {
    input: i8,
    result: i8,
}

struct FacadeTestCommand {
    command: SimpleCommand,
}

impl FacadeTestCommand {
    pub fn new() -> Self {
        Self { command: SimpleCommand::new() }
    }
}

impl INotifier for FacadeTestCommand {
    fn key(&self) -> &str {
        self.command.key()
    }

    fn initialize_notifier(&mut self, key: &str) {
        self.command.initialize_notifier(key);
    }
}

impl ICommand<Body> for FacadeTestCommand {
    fn execute(&mut self, notification: &Notification<Body>) {
        notification.body()
            .and_then(|body| body.downcast_ref::<RwLock<FacadeTestVO>>())
            .and_then(|mutex| mutex.write().ok())
            .map(|mut vo| {
                vo.result = 2 * vo.input;
            });
    }
}

/// Adapts a function to the factory capability.
struct Factory(fn() -> Box<dyn ICommand<Body>>);

impl ICommandFactory<Body> for Factory {
    fn create(&self) -> CommandBox<Body> {
        CommandBox { command: (self.0)() }
    }
}

fn factory(build: fn() -> Box<dyn ICommand<Body>>) -> Box<dyn ICommandFactory<Body>> {
    Box::new(Factory(build))
}

#[test]
fn facade_test_test_get_instance() {
    let mut facades: Multiton<Facade<Body, Data>> = Multiton::new();
    let facade = Facade::get_instance(&mut facades, "FacadeTestKey1", |k| Facade::new(k));

    assert_eq!(facade.key(), "FacadeTestKey1", "Expecting instance not null");
}

#[test]
fn test_register_command_and_send_notification() {
    let mut facades: Multiton<Facade<Body, Data>> = Multiton::new();
    let facade = Facade::get_instance(&mut facades, "FacadeTestKey2", |k| Facade::new(k));

    facade.register_command("FacadeTestNote", factory(|| Box::new(FacadeTestCommand::new())));

    let vo = Arc::new(RwLock::new(FacadeTestVO { input: 32, result: 0 }));

    facade.send_notification("FacadeTestNote", Some(vo.clone() as Body), None);

    assert_eq!(vo.read().unwrap().result, 64);
}

#[test]
fn test_register_and_remove_command_and_send_notification() {
    let mut facades: Multiton<Facade<Body, Data>> = Multiton::new();
    let facade = Facade::get_instance(&mut facades, "FacadeTestKey3", |k| Facade::new(k));

    facade.register_command("FacadeTestNote", factory(|| Box::new(FacadeTestCommand::new())));

    facade.remove_command("FacadeTestNote");

    let vo = Arc::new(RwLock::new(FacadeTestVO { input: 32, result: 0 }));

    facade.send_notification("FacadeTestNote", Some(vo.clone() as Body), None);

    assert_ne!(vo.read().unwrap().result, 64);
}

#[test]
fn facade_test_test_register_and_retrieve_proxy() {
    let mut facades: Multiton<Facade<Body, Data>> = Multiton::new();
    let facade = Facade::get_instance(&mut facades, "FacadeTestKey4", |k| Facade::new(k));

    let colors = vec!["red".to_string(), "green".to_string(), "blue".to_string()];
    let proxy = Proxy::new(Some("colors"), Some(Arc::new(RwLock::new(colors)) as Data));
    facade.register_proxy(Box::new(proxy));

    let proxy = facade.retrieve_proxy("colors").unwrap();

    if let Some(data) = proxy.data() {
        let mut colors = data.downcast_ref::<RwLock<Vec<String>>>().unwrap().write().unwrap();
        assert_eq!(&*colors, &["red", "green", "blue"]);
        colors.push("yellow".to_string());
    }

    if let Some(data) = proxy.data() {
        let colors = data.downcast_ref::<RwLock<Vec<String>>>().unwrap().read().unwrap();
        assert_eq!(&*colors, &["red", "green", "blue", "yellow"]);
    }
    assert!(proxy.data().is_some());
}

#[test]
fn facade_test_test_register_and_remove_proxy() {
    let mut facades: Multiton<Facade<Body, Data>> = Multiton::new();
    let facade = Facade::get_instance(&mut facades, "FacadeTestKey5", |k| Facade::new(k));

    let sizes = vec![7, 13, 21];
    let proxy = Proxy::new(Some("sizes"), Some(Arc::new(sizes) as Data));
    facade.register_proxy(Box::new(proxy));

    let removed_proxy = facade.remove_proxy("sizes").unwrap();

    assert_eq!(removed_proxy.name(), "sizes");

    assert!(facade.retrieve_proxy("sizes").is_none());
}

#[test]
fn test_register_retrieve_and_remove_mediator() {
    let mut facades: Multiton<Facade<Body, Data>> = Multiton::new();
    let facade = Facade::get_instance(&mut facades, "FacadeTestKey6", |k| Facade::new(k));

    let component: Arc<dyn Any + Send + Sync> = Arc::new(RwLock::new(Sprite::default()));
    let mediator = Mediator::new(Some(Mediator::<Component>::NAME), Some(Arc::downgrade(&component).clone()));
    facade.register_mediator(Box::new(mediator));

    assert!(facade.retrieve_mediator(Mediator::<Component>::NAME).is_some());

    let removed_mediator = facade.remove_mediator(Mediator::<Component>::NAME).unwrap();

    assert_eq!(removed_mediator.name(), Mediator::<Component>::NAME);

    assert!(facade.retrieve_mediator(Mediator::<Component>::NAME).is_none());
}

#[test]
fn facade_test_test_has_proxy() {
    let mut facades: Multiton<Facade<Body, Data>> = Multiton::new();
    let facade = Facade::get_instance(&mut facades, "FacadeTestKey7", |k| Facade::new(k));

    let proxy = Proxy::new(Some("hasProxyTest"), Some(Arc::new(vec![1, 2, 3]) as Data));
    facade.register_proxy(Box::new(proxy));

    assert!(facade.has_proxy("hasProxyTest"));
}

#[test]
fn facade_test_test_has_mediator() {
    let mut facades: Multiton<Facade<Body, Data>> = Multiton::new();
    let facade = Facade::get_instance(&mut facades, "FacadeTestKey8", |k| Facade::new(k));

    let component: Arc<dyn Any + Send + Sync> = Arc::new(RwLock::new(Sprite::default()));
    let mediator = Mediator::new(Some("facadeHasMediatorTest"), Some(Arc::downgrade(&component).clone()));
    facade.register_mediator(Box::new(mediator));

    assert!(facade.has_mediator("facadeHasMediatorTest"));

    facade.remove_mediator("facadeHasMediatorTest");

    assert!(!facade.has_mediator("facadeHasMediatorTest"));
}

#[test]
fn facade_test_test_has_command() {
    let mut facades: Multiton<Facade<Body, Data>> = Multiton::new();
    let facade = Facade::get_instance(&mut facades, "FacadeTestKey9", |k| Facade::new(k));

    facade.register_command("FacadeTestCommand", factory(|| Box::new(FacadeTestCommand::new())));

    assert!(facade.has_command("FacadeTestCommand"));

    facade.remove_command("FacadeTestCommand");

    assert!(!facade.has_command("FacadeTestCommand"));
}

#[test]
fn test_has_core_and_remove_core() {
    let mut facades: Multiton<Facade<Body, Data>> = Multiton::new();

    assert!(!Facade::has_core(&facades, "FacadeTestKey10"));

    Facade::get_instance(&mut facades, "FacadeTestKey10", |k| Facade::new(k));

    assert!(Facade::has_core(&facades, "FacadeTestKey10"));

    Facade::remove_core(&mut facades, "FacadeTestKey10");

    assert!(!Facade::has_core(&facades, "FacadeTestKey10"));
}

#[test]
fn test_get_instance_keeps_the_first_instance() {
    let mut facades: Multiton<Facade<Body, Data>> = Multiton::new();
    let facade = Facade::get_instance(&mut facades, "FacadeTestKey11", |k| Facade::new(k));
    facade.register_command("kept", factory(|| Box::new(FacadeTestCommand::new())));

    let again = Facade::get_instance(&mut facades, "FacadeTestKey11", |k| Facade::new(k));
    assert!(again.has_command("kept"));

    // removing an unknown key is no error, and a removed core starts afresh
    Facade::remove_core(&mut facades, "FacadeTestKey12");
    Facade::remove_core(&mut facades, "FacadeTestKey11");
    let fresh = Facade::get_instance(&mut facades, "FacadeTestKey11", |k| Facade::new(k));
    assert!(!fresh.has_command("kept"));
}

#[test]
fn test_cores_are_isolated() {
    let mut facades: Multiton<Facade<Body, Data>> = Multiton::new();
    Facade::get_instance(&mut facades, "FacadeTestKey13", |k| Facade::new(k))
        .register_command("note", factory(|| Box::new(FacadeTestCommand::new())));
    let other = Facade::get_instance(&mut facades, "FacadeTestKey14", |k| Facade::new(k));
    assert!(!other.has_command("note"));
    let vo = Arc::new(RwLock::new(FacadeTestVO { input: 32, result: 0 }));
    assert_eq!(other.send_notification("note", Some(vo.clone() as Body), None), 0);
    assert_eq!(vo.read().unwrap().result, 0);
}

/// A facade that keeps to what the interface does by itself.
struct BareFacade;

impl INotifier for BareFacade {
    fn initialize_notifier(&mut self, _key: &str) {
    }
}

impl IFacade<Body, Data> for BareFacade {
}

#[test]
fn test_facade_defaults() {
    let mut facade = BareFacade;
    facade.initialize_facade();
    assert_eq!(facade.key(), "");

    facade.register_command("note", factory(|| Box::new(FacadeTestCommand::new())));
    assert!(!facade.has_command("note"));
    facade.remove_command("note");

    facade.register_proxy(Box::new(Proxy::new(Some("p"), None)));
    assert!(!facade.has_proxy("p"));
    assert!(facade.retrieve_proxy("p").is_none());
    assert!(facade.remove_proxy("p").is_none());

    facade.register_mediator(Box::new(Mediator::<Component>::new(Some("m"), None)));
    assert!(!facade.has_mediator("m"));
    assert!(facade.retrieve_mediator("m").is_none());
    assert!(facade.remove_mediator("m").is_none());

    assert_eq!(facade.notify_observers(&Notification::new("note", None, None)), 0);
    assert_eq!(facade.send_notification("note", None, None), 0);
}

/// Adapts a closure to the listener capability.
struct Listener<F: Fn(&Notification<Body>) + Send + Sync>(F);

impl<F: Fn(&Notification<Body>) + Send + Sync> IListener<Body> for Listener<F> {
    fn on_notification(&self, notification: &Notification<Body>) {
        (self.0)(notification)
    }
}

#[test]
fn test_the_parts_of_a_core() {
    let mut facades: Multiton<Facade<Body, Data>> = Multiton::new();
    let facade = Facade::get_instance(&mut facades, "FacadeTestKey15", |k| Facade::new(k));

    // an observer registered on the core's view is notified through the core
    let heard = Arc::new(RwLock::new(0));
    let listener = {
        let heard = heard.clone();
        Listener(move |_: &Notification<Body>| *heard.write().unwrap() += 1)
    };
    facade.view_mut().register_observer("note", Observer::new(Some(Callback::Listener(Box::new(listener))), Some(Owner::Generic(1))));
    assert_eq!(facade.view().observer_count("note"), 1);
    assert_eq!(facade.send_notification("note", None, None), 1);
    assert_eq!(*heard.read().unwrap(), 1);

    // a command bound through the controller and the view of the core is the core's
    {
        let (controller, view) = facade.controller_and_view_mut();
        controller.register_command(view, "note", factory(|| Box::new(FacadeTestCommand::new())));
    }
    assert!(facade.has_command("note"));
    assert!(facade.controller().has_command("note"));
    let vo = Arc::new(RwLock::new(FacadeTestVO { input: 32, result: 0 }));
    assert_eq!(facade.send_notification("note", Some(vo.clone() as Body), None), 2);
    assert_eq!(vo.read().unwrap().result, 64);
    assert_eq!(*heard.read().unwrap(), 2);

    // and so with the model
    facade.model_mut().register_proxy(Box::new(Proxy::new(Some("p"), None)));
    assert!(facade.has_proxy("p"));
    assert!(facade.model().has_proxy("p"));

    facade.view_mut().remove_observer("note", &Owner::Generic(1));
    assert_eq!(facade.send_notification("note", None, None), 1);
    assert_eq!(*heard.read().unwrap(), 2);
}

#[test]
fn test_facade_get_instance_on_a_cached_key_never_calls_the_factory() {
    let mut facades: Multiton<Facade<Body, Data>> = Multiton::new();
    Facade::get_instance(&mut facades, "FacadeTestKey16", |k| Facade::new(k))
        .register_command("kept", factory(|| Box::new(FacadeTestCommand::new())));
    let again = Facade::get_instance(&mut facades, "FacadeTestKey16", |_| -> Facade<Body, Data> { unreachable!() });
    assert!(again.has_command("kept"));
}
