use vstd::prelude::*;
use crate::channel::{clone_command_sender, command_channel, CommandReceiver, CommandSender};
use crate::correlator;
use crate::greeting::greet_message_spec;
use crate::status::{StatusBus, StatusObserver};

verus! {

/// What the application shell holds to reach the core: the sending
/// half of the writer actor's queue, and the status bus. Clones of it
/// all feed the same writer and the same observers.
pub struct SharedState {
    pub commands: CommandSender,
    pub bus: StatusBus,
}

impl SharedState {
    pub fn new(commands: CommandSender, bus: StatusBus) -> SharedState {
        SharedState { commands, bus }
    }

    /// Another handle onto the same writer queue and status bus.
    pub fn duplicate(&self) -> SharedState {
        SharedState { commands: clone_command_sender(&self.commands), bus: self.bus.duplicate() }
    }

    /// A fresh observer of this handle's status bus; it sees only what
    /// is published from now on.
    pub fn observer(&self) -> StatusObserver {
        self.bus.subscribe()
    }

    /// The store-backed greeting request, issued through this handle.
    /// Must be called from outside an async runtime.
    pub fn greet(&self) -> (msg: String)
        ensures
            exists|name: Seq<char>| msg@ == greet_message_spec(name),
    {
        correlator::greet(&self.commands, &self.bus)
    }
}

/// The wiring a process does once at startup: a fresh command queue
/// and status bus, handed out as the shell's shared handle plus the
/// receiving half that the one writer task takes.
pub fn setup(status_capacity: usize) -> (SharedState, CommandReceiver)
    requires
        1 <= status_capacity <= usize::MAX / 2,
{
    let (commands, rx) = command_channel();
    (SharedState::new(commands, StatusBus::new(status_capacity)), rx)
}

} // verus!
