use vstd::prelude::*;
use crate::interfaces::ICommand;
use crate::interfaces::ICommandFactory;
use crate::interfaces::INotifier;
use crate::mvc::Multiton;
use crate::patterns::notifier::core_found;
use crate::patterns::notifier::core_kept;
use crate::patterns::notifier::notification_sent;
use crate::patterns::Facade;
use crate::patterns::notifier::key_or_empty;
use crate::patterns::Notification;
use crate::patterns::Notifier;

verus! {

/// The base command: bound to a core, it does nothing when executed.
pub struct SimpleCommand {
    notifier: Notifier,
}

impl SimpleCommand {
    /// The key of the core the command is bound to, if it is bound.
    pub closed spec fn bound_key(&self) -> Option<Seq<char>> {
        self.notifier.bound_key()
    }

    /// A command that is not bound to any core yet.
    pub fn new() -> (r: Self)
        ensures
            r.bound_key() is None,
    {
        SimpleCommand { notifier: Notifier::new() }
    }

    /// The core this command is bound to, out of `facades`; where none is cached
    /// under its key yet, a core with nothing registered is cached there
    /// first. The command must have been bound to a core.
    pub fn facade<'a, B, D>(&self, facades: &'a mut Multiton<Facade<B, D>>) -> (r: &'a mut Facade<
        B,
        D,
    >)
        requires
            self.bound_key() is Some,
        ensures
            core_found(old(facades)@, self.bound_key().unwrap(), *r),
            core_kept(old(facades)@, final(facades)@, self.bound_key().unwrap(), *final(r)),
    {
        self.notifier.facade(facades)
    }

    /// Builds a notification from its parts and has the core this command is
    /// bound to notify its observers; returns how many there were. The
    /// command must have been bound to a core.
    pub fn send_notification<B, D>(
        &self,
        facades: &mut Multiton<Facade<B, D>>,
        notification_name: &str,
        body: Option<B>,
        type_: Option<&str>,
    ) -> (r: usize)
        requires
            self.bound_key() is Some,
        ensures
            notification_sent(
                old(facades)@,
                final(facades)@,
                self.bound_key().unwrap(),
                notification_name@,
                r,
            ),
    {
        self.notifier.send_notification(facades, notification_name, body, type_)
    }
}

impl<B> ICommand<B> for SimpleCommand {
    fn execute(&mut self, notification: &Notification<B>) {
    }
}

impl INotifier for SimpleCommand {
    fn key(&self) -> (r: &str)
        ensures
            r@ == key_or_empty(self.bound_key()),
    {
        self.notifier.key()
    }

    fn initialize_notifier(&mut self, key: &str)
        ensures
            final(self).bound_key() == Some(key@),
    {
        self.notifier.initialize_notifier(key);
    }
}

/// Appends `item` to `list`: the list grows by one, what was there stays
/// in place, and the item comes last.
fn append<T>(list: &mut Vec<T>, item: T)
    ensures
        final(list)@ == old(list)@.push(item),
        final(list)@.len() == old(list)@.len() + 1,
        forall|i: int| 0 <= i < old(list)@.len() ==> #[trigger] final(list)@[i] == old(list)@[i],
{
    list.push(item);
}

/// A command that runs a list of sub-commands, first in first out, each
/// built afresh from its factory.
#[verifier::reject_recursive_types(B)]
pub struct MacroCommand<B> {
    command: SimpleCommand,
    sub_commands: Vec<Box<dyn ICommandFactory<B>>>,
}

impl<B> MacroCommand<B> {
    /// The key of the core the command is bound to, if it is bound.
    pub closed spec fn bound_key(&self) -> Option<Seq<char>> {
        self.command.bound_key()
    }

    /// The factories of the sub-commands still to run, in order.
    pub closed spec fn pending(&self) -> Seq<Box<dyn ICommandFactory<B>>> {
        self.sub_commands@
    }

    /// A macro command with no sub-command, not bound to any core yet.
    pub fn new() -> (r: Self)
        ensures
            r.bound_key() is None,
            r.pending().len() == 0,
    {
        MacroCommand { command: SimpleCommand::new(), sub_commands: Vec::new() }
    }

    /// The core this command is bound to, out of `facades`; where none is cached
    /// under its key yet, a core with nothing registered is cached there
    /// first. The command must have been bound to a core.
    pub fn facade<'a, D>(&self, facades: &'a mut Multiton<Facade<B, D>>) -> (r: &'a mut Facade<
        B,
        D,
    >)
        requires
            self.bound_key() is Some,
        ensures
            core_found(old(facades)@, self.bound_key().unwrap(), *r),
            core_kept(old(facades)@, final(facades)@, self.bound_key().unwrap(), *final(r)),
    {
        self.command.facade(facades)
    }

    /// Builds a notification from its parts and has the core this command is
    /// bound to notify its observers; returns how many there were. The
    /// command must have been bound to a core.
    pub fn send_notification<D>(
        &self,
        facades: &mut Multiton<Facade<B, D>>,
        notification_name: &str,
        body: Option<B>,
        type_: Option<&str>,
    ) -> (r: usize)
        requires
            self.bound_key() is Some,
        ensures
            notification_sent(
                old(facades)@,
                final(facades)@,
                self.bound_key().unwrap(),
                notification_name@,
                r,
            ),
    {
        self.command.send_notification(facades, notification_name, body, type_)
    }

    /// The place to add the sub-commands; the base macro command adds none.
    pub fn initialize_macro_command(&mut self)
        ensures
            final(self).bound_key() == old(self).bound_key(),
            final(self).pending() == old(self).pending(),
    {
    }

    /// Appends a sub-command factory; sub-commands run in the order added.
    pub fn add_sub_command(&mut self, factory: Box<dyn ICommandFactory<B>>)
        ensures
            final(self).bound_key() == old(self).bound_key(),
            final(self).pending() == old(self).pending().push(factory),
            final(self).pending().len() == old(self).pending().len() + 1,
            forall|i: int|
                0 <= i < old(self).pending().len() ==> #[trigger] final(self).pending()[i] == old(
                    self,
                ).pending()[i],
    {
        append(&mut self.sub_commands, factory);
    }
}

impl<B> ICommand<B> for MacroCommand<B> {
    /// Runs every pending sub-command once, in the order added: each is
    /// built afresh, bound to this command's core and executed on the
    /// notification. No sub-command is pending afterwards.
    fn execute(&mut self, notification: &Notification<B>)
        ensures
            final(self).bound_key() == old(self).bound_key(),
            final(self).pending().len() == 0,
    {
        let mut i: usize = 0;
        while i < self.sub_commands.len()
            invariant
                i <= self.sub_commands@.len(),
                self.bound_key() == old(self).bound_key(),
                self.pending() == old(self).pending(),
            decreases self.sub_commands@.len() - i,
        {
            let mut fresh = self.sub_commands[i].create();
            fresh.command.initialize_notifier(self.command.key());
            fresh.command.execute(notification);
            i += 1;
        }
        self.sub_commands.clear();
    }
}

impl<B> INotifier for MacroCommand<B> {
    fn key(&self) -> (r: &str)
        ensures
            r@ == key_or_empty(self.bound_key()),
    {
        self.command.key()
    }

    fn initialize_notifier(&mut self, key: &str)
        ensures
            final(self).bound_key() == Some(key@),
            final(self).pending() == old(self).pending(),
    {
        self.command.initialize_notifier(key);
    }
}

} // verus!
