use std::any::Any;
use std::sync::{Arc, RwLock, Weak};
use puremvc::interfaces::{IMediator, INotifier};
use puremvc::patterns::Mediator;

type Body = Arc<dyn Any + Send + Sync>;
type Component = Weak<dyn Any + Send + Sync>;

struct Button {
    label: String,
}

#[test]
fn mediator_test_test_name_accessor() {
    let mediator: &dyn IMediator<Body> = &Mediator::<Component>::new(None, None);

    assert_eq!(mediator.name(), Mediator::<Component>::NAME, "Expecting mediator.name() == Mediator::NAME");
}

#[test]
fn test_view_accessor() {
    let button = Button { label: "Click Me".to_string() };

    let component: Arc<dyn Any + Send + Sync> = Arc::new(button);
    let mediator = Mediator::new(Some("MyMediator"), Some(Arc::downgrade(&component)));

    mediator.component()
        .and_then(|weak| weak.upgrade())
        .and_then(|arc| arc.downcast::<Button>().ok())
        .map(|object| {
            assert_eq!(object.label, "Click Me".to_string())
        })
        .expect("Downcasting failed");
}

#[test]
fn test_change_button_label() {
    let button = Button { label: "Click Me".to_string() };

    let component: Arc<dyn Any + Send + Sync> = Arc::new(RwLock::new(button));
    let mediator = Mediator::new(Some("MyMediator"), Some(Arc::downgrade(&component)));

    mediator.component()
        .and_then(|weak| weak.upgrade())
        .and_then(|arc| arc.downcast::<RwLock<Button>>().ok())
        .map(|object| {
            object.write().unwrap().label = "Button Changed".to_string();
        })
        .expect("Failed to change button label");

    assert_eq!(component.downcast::<RwLock<Button>>().ok().unwrap().read().unwrap().label, "Button Changed".to_string());
}

#[test]
fn test_mediator_defaults() {
    let mut mediator: Mediator<Component> = Mediator::new(None, None);
    assert_eq!(mediator.name(), "Mediator");
    assert!(mediator.component().is_none());
    assert!(IMediator::<Body>::list_notification_interests(&mediator).is_empty());
    assert_eq!(mediator.key(), "");
    mediator.initialize_notifier("MediatorTestKey1");
    assert_eq!(mediator.key(), "MediatorTestKey1");

    let component: Arc<dyn Any + Send + Sync> = Arc::new(Button { label: "x".to_string() });
    mediator.set_component(Some(Arc::downgrade(&component)));
    assert!(mediator.component().is_some());
    assert_eq!(mediator.name(), "Mediator");
}
