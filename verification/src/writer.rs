use vstd::prelude::*;
use crate::channel::{recv_command, send_reply, CommandReceiver};
use crate::command::{Command, Reply};
use crate::store::{exec_sql, query_first_text, DbConnection};

verus! {

/// The statement that makes the user table exist; running it when the
/// table already exists changes nothing.
pub open spec fn create_users_sql() -> Seq<char> {
    "CREATE TABLE IF NOT EXISTS users (name TEXT PRIMARY KEY, email TEXT, age TEXT)"@
}

/// The statement that makes the load-sample table exist.
pub open spec fn create_load_sql() -> Seq<char> {
    "CREATE TABLE IF NOT EXISTS load (bar INTEGER)"@
}

/// The statements the actor runs at startup, in order.
pub open spec fn startup_statements() -> Seq<Seq<char>> {
    seq![create_users_sql(), create_load_sql()]
}

/// x + 1, stopping at the top of the type instead of wrapping.
pub open spec fn sat_inc(x: u64) -> u64 {
    if x < u64::MAX { (x + 1) as u64 } else { u64::MAX }
}

/// Counts of the commands the actor has carried out, mutated only under
/// exclusive access to the actor.
pub struct UsageCounters {
    /// Queries answered (replies sent or attempted).
    pub reads: u64,
    /// Mutations attempted.
    pub writes: u64,
}

impl UsageCounters {
    pub fn new() -> (c: UsageCounters)
        ensures
            c.reads == 0,
            c.writes == 0,
    {
        UsageCounters { reads: 0, writes: 0 }
    }

    pub fn note_read(&mut self)
        ensures
            final(self).reads == sat_inc(old(self).reads),
            final(self).writes == old(self).writes,
    {
        if self.reads < u64::MAX {
            self.reads = self.reads + 1;
        }
    }

    pub fn note_write(&mut self)
        ensures
            final(self).writes == sat_inc(old(self).writes),
            final(self).reads == old(self).reads,
    {
        if self.writes < u64::MAX {
            self.writes = self.writes + 1;
        }
    }
}

/// What the actor did with one command.
pub enum Handled {
    /// An `Execute` was run: the rows changed, or the store's error
    /// text. Either way the loop goes on.
    Executed(Result<usize, String>),
    /// A `Query` was run: the reply that was pushed onto the command's
    /// own channel, and whether the caller was still there to take it.
    Answered(Reply, bool),
}

impl Handled {
    pub open spec fn is_answered(self) -> bool {
        self matches Handled::Answered(_, _)
    }
}

/// An exact copy of a reply, kept so the actor can both deliver a reply
/// and report what it delivered.
pub fn clone_reply(r: &Reply) -> (c: Reply)
    ensures
        c == *r,
{
    match r {
        Ok(s) => Ok(s.clone()),
        Err(s) => Err(s.clone()),
    }
}

/// The sole owner of the one mutating connection. It consumes commands
/// strictly in arrival order, one at a time; the next command is not
/// taken up before the previous one's reply has been pushed out.
pub struct WriterActor {
    /// The dedicated connection; the actor is its sole owner, so no
    /// other task can ever run a statement on it.
    pub conn: DbConnection,
    /// How many commands of each kind have been carried out.
    pub counters: UsageCounters,
    /// The mutations the store has accepted, oldest first.
    pub applied: Ghost<Seq<Seq<char>>>,
}

impl WriterActor {
    /// Takes sole ownership of the mutating connection.
    pub fn new(conn: DbConnection) -> (w: WriterActor)
        ensures
            w.applied@ == Seq::<Seq<char>>::empty(),
            w.counters.reads == 0,
            w.counters.writes == 0,
    {
        WriterActor { conn, counters: UsageCounters::new(), applied: Ghost(Seq::empty()) }
    }

    /// Makes the tables the actor needs exist; run before the first
    /// command. Running it on a store that already has them changes
    /// nothing and does not error.
    pub fn ensure_tables(&mut self) -> (r: Result<(), String>)
        ensures
            final(self).counters == old(self).counters,
            r is Ok ==> final(self).applied@ == old(self).applied@ + startup_statements(),
            r is Err ==> final(self).applied@ == old(self).applied@
                || final(self).applied@ == old(self).applied@.push(create_users_sql()),
    {
        match exec_sql(&self.conn, "CREATE TABLE IF NOT EXISTS users (name TEXT PRIMARY KEY, email TEXT, age TEXT)") {
            Ok(_) => {
                proof {
                    self.applied@ = self.applied@.push(create_users_sql());
                }
            },
            Err(e) => {
                return Err(e);
            },
        }
        match exec_sql(&self.conn, "CREATE TABLE IF NOT EXISTS load (bar INTEGER)") {
            Ok(_) => {
                proof {
                    self.applied@ = self.applied@.push(create_load_sql());
                    assert(self.applied@ =~= old(self).applied@ + startup_statements());
                }
                Ok(())
            },
            Err(e) => Err(e),
        }
    }

    /// Carries out one command against the private connection. An
    /// `Execute` that the store accepts extends the applied history by
    /// exactly its own statement; a failed one, and any `Query`, leaves
    /// the store's mutation history alone. A `Query`'s reply goes onto
    /// the channel that this very command carried, so no other caller
    /// can observe it. A failing statement is returned as a value,
    /// never raised: one bad command cannot stop the ones after it.
    pub fn handle(&mut self, cmd: Command) -> (out: Handled)
        ensures
            out.is_answered() <==> cmd.is_query(),
            cmd is Execute ==> final(self).counters.writes == sat_inc(old(self).counters.writes)
                && final(self).counters.reads == old(self).counters.reads,
            cmd is Query ==> final(self).counters.reads == sat_inc(old(self).counters.reads)
                && final(self).counters.writes == old(self).counters.writes,
            match out {
                Handled::Executed(res) => res is Ok ==> final(self).applied@
                    == old(self).applied@.push(cmd.sql()),
                Handled::Answered(_, _) => final(self).applied@ == old(self).applied@,
            },
            (out matches Handled::Executed(res) && res is Err) ==> final(self).applied@
                == old(self).applied@,
    {
        match cmd {
            Command::Execute(sql) => {
                self.counters.note_write();
                let res = exec_sql(&self.conn, sql.as_str());
                if res.is_ok() {
                    proof {
                        self.applied@ = self.applied@.push(sql@);
                    }
                }
                Handled::Executed(res)
            },
            Command::Query(sql, reply_tx) => {
                self.counters.note_read();
                let reply = query_first_text(&self.conn, sql.as_str());
                let echo = clone_reply(&reply);
                let delivered = send_reply(reply_tx, reply);
                Handled::Answered(echo, delivered)
            },
        }
    }

    /// The actor's loop: ensure the tables, then take commands
    /// strictly in arrival order, one at a time, until every sender is
    /// gone or `limit` commands have been handled (a caller that wants
    /// the loop unbounded calls it again). Returns how many commands
    /// were handled: fewer than `limit` only when the queue has closed.
    /// Whatever a single command does, the history only ever grows:
    /// what was applied before the loop is still there, in the same
    /// order, when it ends.
    pub fn run(&mut self, rx: &mut CommandReceiver, limit: u64) -> (n: u64)
        ensures
            n <= limit,
            old(self).applied@.is_prefix_of(final(self).applied@),
            final(self).counters.reads >= old(self).counters.reads,
            final(self).counters.writes >= old(self).counters.writes,
    {
        let _ = self.ensure_tables();
        proof {
            assert(self.applied@.subrange(0, old(self).applied@.len() as int) =~= old(
                self,
            ).applied@);
        }
        let mut n: u64 = 0;
        loop
            invariant
                n <= limit,
                old(self).applied@.is_prefix_of(self.applied@),
                self.counters.reads >= old(self).counters.reads,
                self.counters.writes >= old(self).counters.writes,
            decreases limit - n,
        {
            if n == limit {
                break;
            }
            let next = recv_command(rx);
            match next {
                Some(cmd) => {
                    let _ = self.handle(cmd);
                    n = n + 1;
                    proof {
                        assert(self.applied@.subrange(0, old(self).applied@.len() as int) =~= old(
                            self,
                        ).applied@);
                    }
                },
                None => {
                    break;
                },
            }
        }
        n
    }
}

} // verus!
