//! The capabilities that the framework's actors expose to one another.
use vstd::prelude::*;
use vstd::view::View as _;
use crate::mvc::View;
use crate::patterns::Callback;
use crate::patterns::Notification;
use crate::patterns::Observer;
use crate::patterns::Owner;

verus! {

/// A named message, optionally carrying a body and a type tag.
pub trait INotification<B> {
    /// The name under which observers are looked up.
    fn name(&self) -> &str;

    /// The payload, if any.
    fn body(&self) -> Option<&B>;

    /// Replaces the payload.
    fn set_body(&mut self, body: Option<B>);

    /// The type tag, if any.
    fn get_type(&self) -> Option<&str>;

    /// Replaces the type tag.
    fn set_type(&mut self, type_: Option<String>);

    /// A human-readable rendering of name, body and type.
    fn to_string(&self) -> String;
}

/// An actor bound to one core by that core's key.
pub trait INotifier: Send + Sync {
    /// The key of the core this actor belongs to; empty until initialised.
    fn key(&self) -> (r: &str)
        default_ensures
            r@ == Seq::<char>::empty(),
    {
        proof {
            reveal_strlit("");
        }
        assert(""@ =~= Seq::<char>::empty());
        ""
    }

    /// Binds this actor to the core with the given key.
    fn initialize_notifier(&mut self, key: &str);
}

/// Business logic that is built afresh for each notification it handles.
pub trait ICommand<B>: INotifier {
    /// Handles the notification.
    fn execute(&mut self, notification: &Notification<B>);
}

/// A freshly built command, boxed.
#[verifier::reject_recursive_types(B)]
pub struct CommandBox<B> {
    pub command: Box<dyn ICommand<B>>,
}

/// Builds a fresh command each time it is asked.
pub trait ICommandFactory<B>: Send + Sync {
    /// A new command instance.
    fn create(&self) -> CommandBox<B>;
}

/// A command that runs a list of sub-commands in the order they were added.
pub trait IMacroCommand<B>: ICommand<B> {
    /// Fills the list of sub-commands.
    fn initialize_macro_command(&mut self);

    /// Appends one sub-command factory.
    fn add_sub_command(&mut self, factory: Box<dyn ICommandFactory<B>>) {
    }
}

/// An actor that declares interest in named notifications and reacts to
/// them.
pub trait IMediator<B>: INotifier {
    /// The unique name the mediator is registered under.
    fn name(&self) -> &str;

    /// The names of the notifications the mediator wants to receive.
    fn list_notification_interests(&self) -> (r: Vec<String>)
        default_ensures
            r@ == Seq::<String>::empty(),
    {
        Vec::new()
    }

    /// Reacts to one notification.
    fn handle_notification(&mut self, notification: &Notification<B>) {
    }

    /// Called once the mediator is registered and wired.
    fn on_register(&mut self) {
    }

    /// Called once the mediator is removed.
    fn on_remove(&mut self) {
    }
}

/// A named holder of application data.
pub trait IProxy<D>: INotifier {
    /// The unique name the proxy is registered under.
    fn name(&self) -> &str;

    /// The data the proxy holds, if any.
    fn data(&self) -> Option<&D>;

    /// Replaces the data the proxy holds.
    fn set_data(&mut self, data: Option<D>);

    /// Called once the proxy is registered.
    fn on_register(&mut self) {
    }

    /// Called once the proxy is removed.
    fn on_remove(&mut self) {
    }
}

/// A callback supplied by the application: what an observer runs when a
/// notification reaches it.
pub trait IListener<B>: Send + Sync {
    /// Reacts to one notification.
    fn on_notification(&self, notification: &Notification<B>);
}

/// A callback paired with the identity of the object on whose behalf it
/// was registered.
pub trait IObserver<B>: Send + Sync {
    /// The stored callback, if any.
    fn notify(&self) -> Option<&Callback<B>>;

    /// Replaces the stored callback.
    fn set_notify(&mut self, notify: Option<Callback<B>>);

    /// The stored owner, if any.
    fn context(&self) -> Option<&Owner>;

    /// Replaces the stored owner.
    fn set_context(&mut self, context: Option<Owner>);

    /// Runs the observer's own callback, a [`Callback::Listener`], on the
    /// notification. Without a callback this does nothing, and neither
    /// does it for a callback that hands the notification to a mediator
    /// or to the controller: those are carried out by the view that holds
    /// the observer, which alone can reach them.
    fn notify_observer(&self, notification: &Notification<B>);

    /// Whether `object` is the very owner this observer was registered for.
    fn compare_notify_context(&self, object: &Owner) -> bool;
}

/// The notification registry of one core.
pub trait IView<B>: Send + Sync {
    /// Called once on a new instance, before it is cached.
    fn initialize_view(&self);

    /// Appends an observer to the list of a notification name.
    fn register_observer(&mut self, notification_name: &str, observer: Observer<B>);

    /// Takes the observers of one owner off the list of a notification name.
    fn remove_observer(&mut self, notification_name: &str, context: &Owner);

    /// Notifies, in registration order, the observers registered under the
    /// notification's name; returns how many there were.
    fn notify_observers<C: IController<B>>(
        &mut self,
        controller: &C,
        notification: &Notification<B>,
    ) -> usize;

    /// Registers a mediator and subscribes it to its interests.
    fn register_mediator(&mut self, mediator: Box<dyn IMediator<B>>);

    /// The mediator registered under a name, if any.
    fn retrieve_mediator(&self, mediator_name: &str) -> Option<&Box<dyn IMediator<B>>>;

    /// Whether a mediator is registered under a name.
    fn has_mediator(&self, mediator_name: &str) -> bool;

    /// Removes and returns the mediator registered under a name, if any.
    fn remove_mediator(&mut self, mediator_name: &str) -> Option<Box<dyn IMediator<B>>>;
}

/// The data registry of one core.
pub trait IModel<D>: Send + Sync {
    /// Called once on a new instance, before it is cached.
    fn initialize_model(&self);

    /// Registers a proxy under the name it gives.
    fn register_proxy(&mut self, proxy: Box<dyn IProxy<D>>);

    /// The proxy registered under a name, if any.
    fn retrieve_proxy(&self, proxy_name: &str) -> Option<&Box<dyn IProxy<D>>>;

    /// Whether a proxy is registered under a name.
    fn has_proxy(&self, proxy_name: &str) -> bool;

    /// Removes and returns the proxy registered under a name, if any.
    fn remove_proxy(&mut self, proxy_name: &str) -> Option<Box<dyn IProxy<D>>>;
}

/// The command table of one core.
pub trait IController<B>: Send + Sync {
    /// Called once on a new instance, before it is cached.
    fn initialize_controller(&self);

    /// Binds a command factory to a notification name.
    fn register_command(
        &mut self,
        view: &mut View<B>,
        notification_name: &str,
        factory: Box<dyn ICommandFactory<B>>,
    );

    /// Runs a fresh command for the notification, if one is bound to its
    /// name; returns whether one was.
    fn execute_command(&self, notification: &Notification<B>) -> bool;

    /// Whether a command factory is bound to a notification name.
    fn has_command(&self, notification_name: &str) -> bool;

    /// Unbinds the command factory of a notification name.
    fn remove_command(&mut self, view: &mut View<B>, notification_name: &str);
}

/// The single point of contact of one core: it passes each request on to
/// the core's controller, model or view.
pub trait IFacade<B, D>: INotifier {
    /// Called once on a new instance, before it is cached.
    fn initialize_facade(&self) {
    }

    /// The place to set up the controller.
    fn initialize_controller(&self) {
    }

    /// The place to set up the model.
    fn initialize_model(&self) {
    }

    /// The place to set up the view.
    fn initialize_view(&self) {
    }

    /// Binds a command factory to a notification name.
    fn register_command(&mut self, notification_name: &str, factory: Box<dyn ICommandFactory<B>>) {
    }

    /// Whether a command factory is bound to a notification name.
    fn has_command(&self, notification_name: &str) -> (r: bool)
        default_ensures
            !r,
    {
        false
    }

    /// Unbinds the command factory of a notification name.
    fn remove_command(&mut self, notification_name: &str) {
    }

    /// Registers a proxy under the name it gives.
    fn register_proxy(&mut self, proxy: Box<dyn IProxy<D>>) {
    }

    /// The proxy registered under a name, if any.
    fn retrieve_proxy(&self, proxy_name: &str) -> (r: Option<&Box<dyn IProxy<D>>>)
        default_ensures
            r is None,
    {
        None
    }

    /// Whether a proxy is registered under a name.
    fn has_proxy(&self, proxy_name: &str) -> (r: bool)
        default_ensures
            !r,
    {
        false
    }

    /// Removes and returns the proxy registered under a name, if any.
    fn remove_proxy(&mut self, proxy_name: &str) -> (r: Option<Box<dyn IProxy<D>>>)
        default_ensures
            r is None,
    {
        None
    }

    /// Registers a mediator and subscribes it to its interests.
    fn register_mediator(&mut self, mediator: Box<dyn IMediator<B>>) {
    }

    /// The mediator registered under a name, if any.
    fn retrieve_mediator(&self, mediator_name: &str) -> (r: Option<&Box<dyn IMediator<B>>>)
        default_ensures
            r is None,
    {
        None
    }

    /// Whether a mediator is registered under a name.
    fn has_mediator(&self, mediator_name: &str) -> (r: bool)
        default_ensures
            !r,
    {
        false
    }

    /// Removes and returns the mediator registered under a name, if any.
    fn remove_mediator(&mut self, mediator_name: &str) -> (r: Option<Box<dyn IMediator<B>>>)
        default_ensures
            r is None,
    {
        None
    }

    /// Notifies the observers of a notification; returns how many there
    /// were.
    fn notify_observers(&mut self, notification: &Notification<B>) -> (r: usize)
        default_ensures
            r == 0,
    {
        0
    }

    /// Builds a notification from its parts and notifies its observers;
    /// returns how many there were.
    fn send_notification(
        &mut self,
        notification_name: &str,
        body: Option<B>,
        type_: Option<&str>,
    ) -> (r: usize)
        default_ensures
            r == 0,
    {
        0
    }
}

} // verus!
