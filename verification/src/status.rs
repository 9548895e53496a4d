use vstd::prelude::*;

verus! {

#[verifier::external_type_specification]
#[verifier::external_body]
#[verifier::reject_recursive_types(T)]
pub struct ExBroadcastSender<T>(tokio::sync::broadcast::Sender<T>);

#[verifier::external_type_specification]
#[verifier::external_body]
#[verifier::reject_recursive_types(T)]
pub struct ExBroadcastReceiver<T>(tokio::sync::broadcast::Receiver<T>);

/// Fans status strings out to any number of passive observers,
/// decoupled from the request path: publishing never blocks, and an
/// observer that falls behind misses messages rather than stalling the
/// system.
pub struct StatusBus {
    pub tx: tokio::sync::broadcast::Sender<String>,
}

/// One observer's receiving end; sees only messages published after it
/// was subscribed.
pub struct StatusObserver {
    pub rx: tokio::sync::broadcast::Receiver<String>,
}

impl StatusBus {
    /// Relies on tokio::sync::broadcast::Sender::new: a bus that keeps
    /// at most `capacity` undelivered messages per observer; older ones
    /// are dropped, never waited on. Sender::new panics outside these
    /// capacity bounds.
    #[verifier::external_body]
    pub fn new(capacity: usize) -> StatusBus
        requires
            1 <= capacity <= usize::MAX / 2,
    {
        StatusBus { tx: tokio::sync::broadcast::Sender::new(capacity) }
    }

    /// Relies on tokio::sync::broadcast::Sender::send: hands the
    /// message to every currently subscribed observer without ever
    /// blocking; returns how many observers there were (zero when the
    /// message went nowhere).
    #[verifier::external_body]
    pub fn publish(&self, msg: String) -> usize {
        match self.tx.send(msg) {
            Ok(n) => n,
            Err(_) => 0,
        }
    }

    /// Relies on tokio::sync::broadcast::Sender::subscribe: a fresh
    /// receiving end that sees only messages published from now on (no
    /// replay of history).
    #[verifier::external_body]
    pub fn subscribe(&self) -> StatusObserver {
        StatusObserver { rx: self.tx.subscribe() }
    }

    /// Relies on tokio::sync::broadcast::Sender::clone: the clone
    /// publishes to the same observers as the original.
    #[verifier::external_body]
    pub fn duplicate(&self) -> StatusBus {
        StatusBus { tx: self.tx.clone() }
    }
}

impl StatusObserver {
    /// Relies on tokio::sync::broadcast::Receiver::blocking_recv:
    /// blocks until a message is published and returns it; None when
    /// the bus is gone or this observer lagged and lost its place. Must
    /// be called from outside an async runtime.
    #[verifier::external_body]
    pub fn next_message(&mut self) -> Option<String> {
        self.rx.blocking_recv().ok()
    }
}

} // verus!
