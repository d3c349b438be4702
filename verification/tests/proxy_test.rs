use std::any::Any;
use std::sync::Arc;
use puremvc::interfaces::{INotifier, IProxy};
use puremvc::patterns::Proxy;

type Data = Arc<dyn Any + Send + Sync>;

#[test]
fn proxy_test_test_name_accessor() {
    let proxy: &dyn IProxy<Data> = &Proxy::new(None, None);

    assert_eq!(proxy.name(), Proxy::<Data>::NAME);
    assert!(proxy.data().is_none());

    let proxy: Proxy<Data> = Proxy::new(Some("TestProxy"), None);

    assert_eq!(proxy.name(), "TestProxy");
    assert!(proxy.data().is_none());
}

#[test]
fn test_data_accessors() {
    let mut proxy: Proxy<Data> = Proxy::new(Some("colors"), None);

    let colors = vec!["red".to_string(), "green".to_string(), "blue".to_string()];
    proxy.set_data(Some(Arc::new(colors)));

    let seen = proxy.data()
        .and_then(|arc| arc.downcast_ref::<Vec<String>>())
        .map(|data| {
            assert_eq!(data.len(), 3, "Expecting data.len() == 3");
            assert_eq!(data[0], "red", "Expecting data[0] == 'red'");
            assert_eq!(data[1], "green", "Expecting data[1] == 'green'");
            assert_eq!(data[2], "blue", "Expecting data[2] == 'blue'");
        });
    assert!(seen.is_some());
}

#[test]
fn proxy_test_test_constructor() {
    let proxy: Proxy<Data> = Proxy::new(Some("colors"), Some(Arc::new(vec!["red".to_string(), "green".to_string(), "blue".to_string()])));

    assert_eq!(proxy.name(), "colors", "Expecting Proxy.get_name() == 'colors'");

    let seen = proxy.data()
        .and_then(|arc| arc.downcast_ref::<Vec<String>>())
        .map(|data| {
            assert_eq!(data.len(), 3, "Expecting data.len() == 3");
            assert_eq!(data[0], "red", "Expecting data[0] == 'red'");
            assert_eq!(data[1], "green", "Expecting data[1] == 'green'");
            assert_eq!(data[2], "blue", "Expecting data[2] == 'blue'");
        });
    assert!(seen.is_some());
}

#[test]
fn test_proxy_default_name_and_key() {
    let mut proxy: Proxy<Data> = Proxy::new(None, None);
    assert_eq!(proxy.name(), "Proxy");
    assert_eq!(proxy.key(), "");
    proxy.initialize_notifier("ProxyTestKey1");
    assert_eq!(proxy.key(), "ProxyTestKey1");
    assert_eq!(proxy.name(), "Proxy");
}
