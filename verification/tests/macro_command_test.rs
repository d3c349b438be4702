use std::any::Any;
use std::sync::{Arc, RwLock};
use puremvc::interfaces::{CommandBox, ICommand, ICommandFactory, INotifier};
use puremvc::patterns::{MacroCommand, Notification, SimpleCommand};

type Body = Arc<dyn Any + Send + Sync>;

struct MacroCommandTestVO {
    input: i8,
    result1: i8,
    result2: i8,
}

/// Doubles the input into the first result.
struct MacroCommandTestSub1Command {
    command: SimpleCommand,
}

impl MacroCommandTestSub1Command {
    pub fn new() -> Self {
        Self { command: SimpleCommand::new() }
    }
}

impl INotifier for MacroCommandTestSub1Command {
    fn key(&self) -> &str {
        self.command.key()
    }

    fn initialize_notifier(&mut self, key: &str) {
        self.command.initialize_notifier(key);
    }
}

impl ICommand<Body> for MacroCommandTestSub1Command {
    fn execute(&mut self, notification: &Notification<Body>) {
        notification.body()
            .and_then(|body| body.downcast_ref::<RwLock<MacroCommandTestVO>>())
            .and_then(|mutex| mutex.write().ok())
            .map(|mut vo| {
                vo.result1 = 2 * vo.input;
            });
    }
}

/// Squares the input into the second result.
struct MacroCommandTestSub2Command {
    command: SimpleCommand,
}

impl MacroCommandTestSub2Command {
    pub fn new() -> Self {
        Self { command: SimpleCommand::new() }
    }
}

impl INotifier for MacroCommandTestSub2Command {
    fn key(&self) -> &str {
        self.command.key()
    }

    fn initialize_notifier(&mut self, key: &str) {
        self.command.initialize_notifier(key);
    }
}

impl ICommand<Body> for MacroCommandTestSub2Command {
    fn execute(&mut self, notification: &Notification<Body>) {
        notification.body()
            .and_then(|body| body.downcast_ref::<RwLock<MacroCommandTestVO>>())
            .and_then(|mutex| mutex.write().ok())
            .map(|mut vo| {
                vo.result2 = vo.input * vo.input;
            });
    }
}

/// Adapts a function to the factory capability.
struct Factory(fn() -> Box<dyn ICommand<Body>>);

impl ICommandFactory<Body> for Factory {
    fn create(&self) -> CommandBox<Body> {
        CommandBox { command: (self.0)() }
    }
}

/// A macro command that runs the two sub-commands.
struct MacroCommandTestCommand {
    command: MacroCommand<Body>,
}

impl MacroCommandTestCommand {
    pub fn new() -> Self {
        Self { command: MacroCommand::new() }
    }

    fn initialize_macro_command(&mut self) {
        self.command.add_sub_command(Box::new(Factory(|| Box::new(MacroCommandTestSub1Command::new()))));
        self.command.add_sub_command(Box::new(Factory(|| Box::new(MacroCommandTestSub2Command::new()))));
    }
}

impl INotifier for MacroCommandTestCommand {
    fn key(&self) -> &str {
        self.command.key()
    }

    fn initialize_notifier(&mut self, key: &str) {
        self.command.initialize_notifier(key);
    }
}

impl ICommand<Body> for MacroCommandTestCommand {
    fn execute(&mut self, notification: &Notification<Body>) {
        self.initialize_macro_command();
        self.command.execute(notification);
    }
}

#[test]
fn test_macro_command_execute() {
    let vo = Arc::new(RwLock::new(MacroCommandTestVO { input: 5, result1: 0, result2: 0 }));
    let notification = Notification::new("MacroCommandTest", Some(vo as Body), None);

    let mut command = MacroCommandTestCommand::new();
    command.execute(&notification);

    let seen = notification.body()
        .and_then(|body| body.downcast_ref::<RwLock<MacroCommandTestVO>>())
        .and_then(|mutex| mutex.read().ok())
        .map(|vo| {
            assert_eq!(vo.result1, 10);
            assert_eq!(vo.result2, 25);
        });
    assert!(seen.is_some());
}

#[test]
fn test_macro_command_runs_in_order_and_once() {
    struct Append(&'static str);

    impl INotifier for Append {
        fn key(&self) -> &str {
            ""
        }

        fn initialize_notifier(&mut self, _key: &str) {
        }
    }

    impl ICommand<Body> for Append {
        fn execute(&mut self, notification: &Notification<Body>) {
            notification.body()
                .and_then(|body| body.downcast_ref::<RwLock<String>>())
                .map(|log| log.write().unwrap().push_str(self.0));
        }
    }

    let log = Arc::new(RwLock::new(String::new()));
    let notification = Notification::new("Order", Some(log.clone() as Body), None);

    let mut command: MacroCommand<Body> = MacroCommand::new();
    command.initialize_macro_command();
    command.add_sub_command(Box::new(Factory(|| Box::new(Append("a")))));
    command.add_sub_command(Box::new(Factory(|| Box::new(Append("b")))));
    command.add_sub_command(Box::new(Factory(|| Box::new(Append("c")))));
    command.execute(&notification);
    assert_eq!(*log.read().unwrap(), "abc");

    // the sub-commands were used up
    command.execute(&notification);
    assert_eq!(*log.read().unwrap(), "abc");
}
