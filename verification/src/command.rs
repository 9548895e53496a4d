use vstd::prelude::*;

verus! {

/// The value a `Query` command delivers back to its caller: the first
/// column of the first row, or the store's error text.
pub type Reply = Result<String, String>;

/// One-shot sending half of a reply channel; created fresh for every
/// `Query` command and consumed by exactly one send.
pub type ReplySender = tokio::sync::oneshot::Sender<Reply>;

/// One-shot receiving half of a reply channel; consumed by exactly one
/// receive.
pub type ReplyReceiver = tokio::sync::oneshot::Receiver<Reply>;

#[verifier::external_type_specification]
#[verifier::external_body]
#[verifier::reject_recursive_types(T)]
pub struct ExOneshotSender<T>(tokio::sync::oneshot::Sender<T>);

#[verifier::external_type_specification]
#[verifier::external_body]
#[verifier::reject_recursive_types(T)]
pub struct ExOneshotReceiver<T>(tokio::sync::oneshot::Receiver<T>);

#[verifier::external_type_specification]
#[verifier::external_body]
pub struct ExOneshotRecvError(tokio::sync::oneshot::error::RecvError);

/// A command for the writer actor. Commands are immutable once created
/// and carry no transaction state.
pub enum Command {
    /// A fire-and-forget mutation: SQL text, no reply expected.
    Execute(String),
    /// A lookup: SQL text plus the single-use channel on which exactly
    /// one reply is delivered.
    Query(String, ReplySender),
}

impl Command {
    /// The SQL text this command carries.
    pub open spec fn sql(self) -> Seq<char> {
        match self {
            Command::Execute(s) => s@,
            Command::Query(s, _) => s@,
        }
    }

    /// Whether this command expects a reply.
    pub open spec fn is_query(self) -> bool {
        self matches Command::Query(_, _)
    }
}

} // verus!
