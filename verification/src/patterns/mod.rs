mod notification;
pub use notification::Notification;
pub use notification::NotificationView;
pub use notification::absent_text;
pub use notification::render;
pub use notification::rendering;
pub use notification::tag_text;
pub use notification::tag_view;

mod observer;
pub use observer::callback_view;
pub use observer::owner_view;
pub use observer::Callback;
pub use observer::CallbackView;
pub use observer::ObserverView;
pub use observer::Observer;
pub use observer::Owner;
pub use observer::OwnerView;

mod notifier;
pub use notifier::Notifier;
pub use notifier::core_found;
pub use notifier::core_kept;
pub use notifier::is_new_core;
pub use notifier::key_or_empty;
pub use notifier::notification_sent;

mod mediator;
pub use mediator::default_mediator_name;
pub use mediator::Mediator;

mod proxy;
pub use proxy::default_proxy_name;
pub use proxy::Proxy;

mod command;
pub use command::MacroCommand;
pub use command::SimpleCommand;

mod facade;
pub use facade::Facade;
