use vstd::prelude::*;
use crate::channel::{recv_reply, reply_channel, send_command, CommandSender};
use crate::command::{Command, Reply};
use crate::greeting::{greet_message, greet_message_spec, name_or_unknown, unknown_text};
use crate::status::StatusBus;

verus! {

/// What a caller gets for what came back on its reply channel: the
/// delivered value as it is, and the sentinel error when the channel
/// closed without a value (the writer is gone or dropped the sender).
pub fn interpret_reply(received: Option<Reply>) -> (r: Reply)
    ensures
        received matches Some(rep) ==> r == rep,
        received is None ==> (r matches Err(e) && e@ == unknown_text()),
{
    match received {
        Some(rep) => rep,
        None => Err(String::from_str("Unknown")),
    }
}

/// Submits one query and awaits its answer: allocates a reply channel
/// used by this request and no other, attaches it to a `Query` command,
/// enqueues the command, and blocks until the single reply arrives.
/// Because the channel is fresh and single-use, the value returned can
/// only be the writer's answer to this very command; a channel that
/// closes without a value (queue or writer gone) comes back as the
/// sentinel error, exactly as `interpret_reply` states. Must be called
/// from outside an async runtime.
pub fn submit_query(tx: &CommandSender, sql: String) -> (r: Reply)
{
    let (reply_tx, reply_rx) = reply_channel();
    let _ = send_command(tx, Command::Query(sql, reply_tx));
    let received = recv_reply(reply_rx);
    interpret_reply(received)
}

/// The store-backed greeting request: looks the user name up through
/// the writer actor, degrades to the sentinel on failure, publishes the
/// message on the status bus, and returns it. Whatever the store said,
/// the result is the greeting for some name. Must be called from
/// outside an async runtime.
pub fn greet(tx: &CommandSender, bus: &StatusBus) -> (msg: String)
    ensures
        exists|name: Seq<char>| msg@ == greet_message_spec(name),
{
    let reply = submit_query(tx, String::from_str("SELECT name FROM users LIMIT 1"));
    let name = name_or_unknown(&reply);
    let msg = greet_message(name.as_str());
    let _ = bus.publish(msg.clone());
    proof {
        assert(msg@ == greet_message_spec(name@));
    }
    msg
}

} // verus!
