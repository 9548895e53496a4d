use vstd::prelude::*;
use crate::command::{Command, Reply, ReplyReceiver, ReplySender};

verus! {

#[verifier::external_type_specification]
#[verifier::external_body]
#[verifier::reject_recursive_types(T)]
pub struct ExUnboundedSender<T>(tokio::sync::mpsc::UnboundedSender<T>);

#[verifier::external_type_specification]
#[verifier::external_body]
#[verifier::reject_recursive_types(T)]
pub struct ExUnboundedReceiver<T>(tokio::sync::mpsc::UnboundedReceiver<T>);

/// The sending half of the writer actor's inbound queue.
pub type CommandSender = tokio::sync::mpsc::UnboundedSender<Command>;

/// The receiving half of the writer actor's inbound queue; owned by the
/// single writer task alone.
pub type CommandReceiver = tokio::sync::mpsc::UnboundedReceiver<Command>;

/// Relies on tokio::sync::mpsc::unbounded_channel: returns a connected
/// sender/receiver pair for an initially empty first-in-first-out queue.
#[verifier::external_body]
pub fn command_channel() -> (CommandSender, CommandReceiver) {
    tokio::sync::mpsc::unbounded_channel()
}

/// Relies on tokio::sync::mpsc::UnboundedSender::clone: the clone feeds
/// the same queue as the original.
#[verifier::external_body]
pub fn clone_command_sender(tx: &CommandSender) -> CommandSender {
    tx.clone()
}

/// Relies on tokio::sync::mpsc::UnboundedSender::send: enqueues the
/// command at the tail of the queue; returns false when the receiving
/// half has been dropped (the command is then discarded).
#[verifier::external_body]
pub fn send_command(tx: &CommandSender, cmd: Command) -> bool {
    tx.send(cmd).is_ok()
}

/// Relies on tokio::sync::mpsc::UnboundedReceiver::blocking_recv:
/// dequeues the oldest waiting command, blocking until one arrives;
/// returns None once every sender has been dropped and the queue is
/// drained. Must be called from outside an async runtime.
#[verifier::external_body]
pub fn recv_command(rx: &mut CommandReceiver) -> Option<Command> {
    rx.blocking_recv()
}

/// Relies on tokio::sync::oneshot::channel: returns a connected
/// sender/receiver pair; the pair is shared with no other request, so a
/// value sent on this sender can be received only by this receiver.
#[verifier::external_body]
pub fn reply_channel() -> (ReplySender, ReplyReceiver) {
    tokio::sync::oneshot::channel()
}

/// Relies on tokio::sync::oneshot::Sender::send: delivers the reply to
/// the paired receiver, consuming the sender; returns false when the
/// receiver has been dropped (the reply is then discarded).
#[verifier::external_body]
pub fn send_reply(tx: ReplySender, r: Reply) -> bool {
    tx.send(r).is_ok()
}

/// Relies on tokio::sync::oneshot::Receiver::blocking_recv: blocks until
/// the paired sender delivers a value and returns it, or returns None if
/// the sender was dropped without sending. Consumes the receiver: a
/// reply channel is received from at most once. Must be called from
/// outside an async runtime.
#[verifier::external_body]
pub fn recv_reply(rx: ReplyReceiver) -> Option<Reply> {
    rx.blocking_recv().ok()
}

} // verus!
