use std::any::Any;
use std::sync::{Arc, RwLock};
use puremvc::interfaces::{ICommand, INotifier};
use puremvc::patterns::{Notification, SimpleCommand};

type Body = Arc<dyn Any + Send + Sync>;

struct SimpleCommandTestVO {
    input: i8,
    result: i8,
}

struct SimpleCommandTestCommand {
    command: SimpleCommand,
}

impl SimpleCommandTestCommand {
    pub fn new() -> Self {
        Self { command: SimpleCommand::new() }
    }
}

impl INotifier for SimpleCommandTestCommand {
    fn key(&self) -> &str {
        self.command.key()
    }

    fn initialize_notifier(&mut self, key: &str) {
        self.command.initialize_notifier(key);
    }
}

impl ICommand<Body> for SimpleCommandTestCommand {
    fn execute(&mut self, notification: &Notification<Body>) {
        notification.body()
            .and_then(|body| body.downcast_ref::<RwLock<SimpleCommandTestVO>>())
            .and_then(|mutex| mutex.write().ok())
            .map(|mut vo| {
                vo.result = 2 * vo.input;
            });
    }
}

#[test]
fn test_simple_command_execute() {
    let vo = Arc::new(RwLock::new(SimpleCommandTestVO { input: 5, result: 0 }));
    let note = Notification::new("SimpleCommandTestNote", Some(vo.clone() as Body), None);

    let mut command = SimpleCommandTestCommand::new();
    command.execute(&note);

    assert_eq!(vo.read().unwrap().result, 10, "Expecting vo.result == 10");
}

#[test]
fn test_simple_command_key() {
    let mut command = SimpleCommand::new();
    assert_eq!(command.key(), "");
    command.initialize_notifier("SimpleCommandTestKey1");
    assert_eq!(command.key(), "SimpleCommandTestKey1");
}
