//! The command bus: a broadcast channel to every connected robot socket, with
//! a record of what was handed to it.

use crate::robot::models::{CommandView, RobotCommand};
use tokio::sync::broadcast::{Receiver, Sender};
use vstd::prelude::*;

verus! {

/// How many commands the bus buffers for a subscriber that lags.
pub const COMMAND_BUS_CAPACITY: usize = 100;

/// `tokio::sync::broadcast::Sender`, the sending half of a broadcast
/// channel. Opaque: nothing is known of a value but what the wrappers below
/// say.
#[verifier::external_type_specification]
#[verifier::external_body]
#[verifier::reject_recursive_types(T)]
pub struct ExSender<T>(tokio::sync::broadcast::Sender<T>);

/// `tokio::sync::broadcast::Receiver`, a subscription to a broadcast
/// channel. Opaque: the library hands it out and never reads from it.
#[verifier::external_type_specification]
#[verifier::external_body]
#[verifier::reject_recursive_types(T)]
pub struct ExReceiver<T>(tokio::sync::broadcast::Receiver<T>);

/// One command handed to the bus, and whether the channel took it.
pub struct Emission {
    pub command: CommandView,
    pub delivered: bool,
}

/// The sending side of the broadcast channel, and the history of its sends.
pub struct CommandBus {
    sender: Sender<RobotCommand>,
    history: Ghost<Seq<Emission>>,
}

impl View for CommandBus {
    type V = Seq<Emission>;

    closed spec fn view(&self) -> Seq<Emission> {
        self.history@
    }
}

/// The commands of a history, in order, delivered or not.
pub open spec fn commands_of(history: Seq<Emission>) -> Seq<CommandView> {
    history.map_values(|e: Emission| e.command)
}

/// Opens a channel with `tokio::sync::broadcast::channel` and keeps its
/// sender; the receiver that comes with it is dropped, so the channel starts
/// without subscribers. The outside function panics on a capacity of zero or
/// above `usize::MAX / 2`, which `requires` leaves out.
#[verifier::external_body]
fn open_channel(capacity: usize) -> (sender: Sender<RobotCommand>)
    requires
        0 < capacity <= usize::MAX / 2,
{
    tokio::sync::broadcast::channel(capacity).0
}

/// Calls `Sender::send`. It never blocks; it hands back the number of
/// subscribers, which is positive, or fails when there is none. Which of the
/// two happens depends on who is subscribed at that moment.
#[verifier::external_body]
fn send_on(sender: &Sender<RobotCommand>, command: RobotCommand) -> (receivers: Option<usize>)
    ensures
        receivers matches Some(n) ==> n > 0,
{
    match sender.send(command) {
        Ok(n) => Some(n),
        Err(_) => None,
    }
}

/// Calls `Sender::subscribe`: a new receiver that will see what is sent from
/// now on.
#[verifier::external_body]
fn subscribe_to(sender: &Sender<RobotCommand>) -> (receiver: Receiver<RobotCommand>) {
    sender.subscribe()
}

impl CommandBus {
    /// A bus with room for `capacity` commands per lagging subscriber, and
    /// nothing sent yet.
    pub fn new(capacity: usize) -> (bus: CommandBus)
        requires
            0 < capacity <= usize::MAX / 2,
        ensures
            bus@ == Seq::<Emission>::empty(),
    {
        CommandBus { sender: open_channel(capacity), history: Ghost(Seq::empty()) }
    }

    /// Hands a command to every subscriber. The send never blocks; with no
    /// subscriber the command is dropped and `false` comes back. Either way the
    /// history records the command and the outcome.
    pub fn send(&mut self, command: RobotCommand) -> (delivered: bool)
        ensures
            final(self)@ == old(self)@.push(Emission { command: command@, delivered }),
    {
        let ghost sent = command@;
        let delivered = send_on(&self.sender, command).is_some();
        proof {
            self.history@ = self.history@.push(Emission { command: sent, delivered });
        }
        delivered
    }

    /// A new subscriber, which receives the commands sent after this call.
    pub fn subscribe(&self) -> (receiver: Receiver<RobotCommand>) {
        subscribe_to(&self.sender)
    }
}

} // verus!
