use vstd::prelude::*;
use crate::store::{exec_sql_i64, ConnectionPool};

verus! {

/// A background task's state for exercising the store under sustained
/// load: it appends monotonically increasing samples to the dedicated
/// load table through the pool, bypassing the writer actor — permitted
/// because no writer-routed table is touched.
pub struct LoadGenerator {
    /// The next sample to write; grows by one every step, whatever the
    /// store said.
    pub counter: i64,
    /// The samples the store accepted, in the order they were written.
    pub written: Ghost<Seq<int>>,
}

impl LoadGenerator {
    /// The samples on record are strictly increasing, and all below
    /// the counter.
    pub open spec fn wf(self) -> bool {
        (forall|k: int, l: int|
            0 <= k < l < self.written@.len() ==> self.written@[k] < self.written@[l])
            && (forall|k: int| 0 <= k < self.written@.len() ==> self.written@[k] < self.counter)
    }

    pub fn new() -> (g: LoadGenerator)
        ensures
            g.counter == 1,
            g.written@ == Seq::<int>::empty(),
            g.wf(),
    {
        LoadGenerator { counter: 1, written: Ghost(Seq::empty()) }
    }

    /// One iteration: check a connection out, append the current
    /// sample, advance the counter. A failure (pool busy, statement
    /// refused) is reported and never halts the loop; the counter
    /// advances regardless, so later samples stay strictly above
    /// earlier ones.
    pub fn step(&mut self, pool: &ConnectionPool) -> (ok: bool)
        requires
            old(self).counter < i64::MAX,
            old(self).wf(),
        ensures
            final(self).counter == old(self).counter + 1,
            ok ==> final(self).written@ == old(self).written@.push(old(self).counter as int),
            !ok ==> final(self).written@ == old(self).written@,
            final(self).wf(),
    {
        let ok: bool = match pool.checkout() {
            Ok(handle) => {
                match exec_sql_i64(handle.conn(), "INSERT INTO load (bar) VALUES (?)", self.counter) {
                    Ok(_) => true,
                    Err(_) => false,
                }
            },
            Err(_) => false,
        };
        if ok {
            proof {
                self.written@ = self.written@.push(self.counter as int);
            }
        }
        self.counter = self.counter + 1;
        ok
    }
}

} // verus!
