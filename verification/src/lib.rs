//! Serialized access to an embedded relational store: a bounded pool
//! of read connections, a single writer actor that owns the only
//! mutating connection and takes commands strictly in arrival order,
//! and a per-request reply channel that gives every caller exactly the
//! answer to its own query. `model` states and proves the ordering and
//! correlation guarantees; `writer`, `correlator`, `status` and `store`
//! carry them out against the real store and channels.

use vstd::prelude::*;

pub mod channel;
pub mod command;
pub mod correlator;
pub mod greeting;
pub mod load;
pub mod model;
pub mod rand_name;
pub mod state;
pub mod status;
pub mod store;
pub mod writer;

pub use greeting::noinput;

verus! {

} // verus!
