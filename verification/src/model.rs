use vstd::prelude::*;

verus! {

/// A command as the correlation proofs see it: the SQL text it carries
/// and, for a query, the identity of its single-use reply channel.
/// Channel identities stand in for the fresh one-shot channels the
/// executable path allocates: one per query, shared with no other.
pub enum CmdModel {
    Exec { sql: Seq<char> },
    Query { sql: Seq<char>, ticket: nat },
}

impl CmdModel {
    pub open spec fn is_query(self) -> bool {
        self matches CmdModel::Query { .. }
    }

    pub open spec fn sql(self) -> Seq<char> {
        match self {
            CmdModel::Exec { sql } => sql,
            CmdModel::Query { sql, .. } => sql,
        }
    }

    pub open spec fn ticket(self) -> nat
        recommends
            self.is_query(),
    {
        match self {
            CmdModel::Query { ticket, .. } => ticket,
            CmdModel::Exec { .. } => 0,
        }
    }
}

/// The reply-channel invariant: no two queries in the queue share a
/// channel. The executable path gets this for free by allocating a
/// fresh one-shot channel per request.
pub open spec fn distinct_tickets(q: Seq<CmdModel>) -> bool {
    forall|i: int, j: int|
        0 <= i < q.len() && 0 <= j < q.len() && i != j && q[i].is_query() && q[j].is_query()
            ==> q[i].ticket() != q[j].ticket()
}

/// What one pass of the writer over a queue leaves behind: the store —
/// the mutations it has taken, oldest first — and, per reply channel,
/// the one value pushed onto it.
pub struct Outcome {
    pub store: Seq<Seq<char>>,
    pub replies: Map<nat, Seq<char>>,
}

/// The writer actor, mathematically: commands leave the queue strictly
/// in arrival order; a mutation goes onto the store's history; a query
/// is answered from the store as it stands at that instant, and the
/// answer goes onto that query's own channel. `ans` is the store's
/// answer function — everything proved below holds for every `ans`.
pub open spec fn process(
    q: Seq<CmdModel>,
    store: Seq<Seq<char>>,
    ans: spec_fn(Seq<Seq<char>>, Seq<char>) -> Seq<char>,
) -> Outcome
    decreases q.len(),
{
    if q.len() == 0 {
        Outcome { store, replies: Map::empty() }
    } else {
        match q[0] {
            CmdModel::Exec { sql } => process(q.drop_first(), store.push(sql), ans),
            CmdModel::Query { sql, ticket } => {
                let rest = process(q.drop_first(), store, ans);
                Outcome {
                    store: rest.store,
                    replies: rest.replies.insert(ticket, ans(store, sql)),
                }
            },
        }
    }
}

/// The mutations a queue carries, in arrival order.
pub open spec fn executes_of(q: Seq<CmdModel>) -> Seq<Seq<char>>
    decreases q.len(),
{
    if q.len() == 0 {
        Seq::empty()
    } else {
        match q[0] {
            CmdModel::Exec { sql } => seq![sql] + executes_of(q.drop_first()),
            CmdModel::Query { .. } => executes_of(q.drop_first()),
        }
    }
}

/// However many callers enqueue mutations concurrently, the store ends
/// up reflecting every one of them, applied in exactly the order they
/// arrived at the writer's queue: no lost update, no interleaving
/// inside a statement, no reordering.
pub proof fn lemma_writes_in_arrival_order(
    q: Seq<CmdModel>,
    store: Seq<Seq<char>>,
    ans: spec_fn(Seq<Seq<char>>, Seq<char>) -> Seq<char>,
)
    ensures
        process(q, store, ans).store == store + executes_of(q),
    decreases q.len(),
{
    if q.len() == 0 {
        assert(store + executes_of(q) =~= store);
    } else {
        match q[0] {
            CmdModel::Exec { sql } => {
                lemma_writes_in_arrival_order(q.drop_first(), store.push(sql), ans);
                assert(store.push(sql) + executes_of(q.drop_first()) =~= store + (seq![sql]
                    + executes_of(q.drop_first())));
            },
            CmdModel::Query { .. } => {
                lemma_writes_in_arrival_order(q.drop_first(), store, ans);
            },
        }
    }
}

/// No cross-talk: with every query on its own channel, each channel
/// ends up carrying exactly the store's answer to that query's own SQL
/// text, against the store as the arrival order had built it when the
/// query's turn came — never a value derived from any other caller's
/// request. Holds for any number of callers and any answer function.
pub proof fn lemma_no_cross_talk(
    q: Seq<CmdModel>,
    store: Seq<Seq<char>>,
    ans: spec_fn(Seq<Seq<char>>, Seq<char>) -> Seq<char>,
    i: int,
)
    requires
        distinct_tickets(q),
        0 <= i < q.len(),
        q[i].is_query(),
    ensures
        process(q, store, ans).replies.dom().contains(q[i].ticket()),
        process(q, store, ans).replies[q[i].ticket()] == ans(
            store + executes_of(q.take(i)),
            q[i].sql(),
        ),
    decreases q.len(),
{
    assert(distinct_tickets(q.drop_first())) by {
        assert(forall|k: int, l: int|
            0 <= k < q.drop_first().len() && 0 <= l < q.drop_first().len() && k != l
                && q.drop_first()[k].is_query() && q.drop_first()[l].is_query()
                ==> q.drop_first()[k].ticket() != q.drop_first()[l].ticket()) by {
            assert(forall|k: int| 0 <= k < q.drop_first().len() ==> q.drop_first()[k] == q[k + 1]);
        }
    }
    if i == 0 {
        assert(store + executes_of(q.take(0)) =~= store);
    } else {
        match q[0] {
            CmdModel::Exec { sql } => {
                lemma_no_cross_talk(q.drop_first(), store.push(sql), ans, i - 1);
                assert(q.take(i).drop_first() =~= q.drop_first().take(i - 1));
                assert(executes_of(q.take(i)) == seq![sql] + executes_of(
                    q.drop_first().take(i - 1),
                ));
                assert(store + executes_of(q.take(i)) =~= store.push(sql) + executes_of(
                    q.drop_first().take(i - 1),
                ));
            },
            CmdModel::Query { sql, ticket } => {
                lemma_no_cross_talk(q.drop_first(), store, ans, i - 1);
                assert(q[i].ticket() != ticket);
                assert(q.take(i).drop_first() =~= q.drop_first().take(i - 1));
                assert(executes_of(q.take(i)) == executes_of(q.drop_first().take(i - 1)));
            },
        }
    }
}

/// The channels on which some query in the queue awaits its answer.
pub open spec fn query_tickets(q: Seq<CmdModel>) -> Set<nat> {
    Set::new(
        |t: nat| exists|i: int| 0 <= i < q.len() && #[trigger] q[i].is_query() && q[i].ticket() == t,
    )
}

/// Delivery is exact: one pass of the writer pushes a value onto every
/// waiting query's channel — no caller hangs unanswered — and onto no
/// channel that no query named. With `lemma_no_cross_talk`, each caller
/// thus receives exactly one reply, and exactly its own.
pub proof fn lemma_one_reply_per_channel(
    q: Seq<CmdModel>,
    store: Seq<Seq<char>>,
    ans: spec_fn(Seq<Seq<char>>, Seq<char>) -> Seq<char>,
)
    ensures
        process(q, store, ans).replies.dom() == query_tickets(q),
    decreases q.len(),
{
    if q.len() == 0 {
        assert(process(q, store, ans).replies.dom() =~= query_tickets(q));
    } else {
        assert(forall|k: int| 0 <= k < q.drop_first().len() ==> q.drop_first()[k] == q[k + 1]);
        match q[0] {
            CmdModel::Exec { sql } => {
                lemma_one_reply_per_channel(q.drop_first(), store.push(sql), ans);
                assert forall|t: nat| query_tickets(q).contains(t) implies query_tickets(
                    q.drop_first(),
                ).contains(t) by {
                    let i = choose|i: int|
                        0 <= i < q.len() && #[trigger] q[i].is_query() && q[i].ticket() == t;
                    assert(q.drop_first()[i - 1].is_query());
                }
                assert forall|t: nat| query_tickets(q.drop_first()).contains(t)
                    implies query_tickets(q).contains(t) by {
                    let i = choose|i: int|
                        0 <= i < q.drop_first().len() && #[trigger] q.drop_first()[i].is_query()
                            && q.drop_first()[i].ticket() == t;
                    assert(q[i + 1].is_query());
                }
                assert(query_tickets(q) =~= query_tickets(q.drop_first()));
            },
            CmdModel::Query { sql, ticket } => {
                lemma_one_reply_per_channel(q.drop_first(), store, ans);
                assert forall|t: nat| query_tickets(q).contains(t) implies query_tickets(
                    q.drop_first(),
                ).insert(ticket).contains(t) by {
                    let i = choose|i: int|
                        0 <= i < q.len() && #[trigger] q[i].is_query() && q[i].ticket() == t;
                    if i > 0 {
                        assert(q.drop_first()[i - 1].is_query());
                    }
                }
                assert forall|t: nat| query_tickets(q.drop_first()).insert(ticket).contains(t)
                    implies query_tickets(q).contains(t) by {
                    if t == ticket {
                        assert(q[0].is_query());
                    } else {
                        let i = choose|i: int|
                            0 <= i < q.drop_first().len() && #[trigger] q.drop_first()[
                                i
                            ].is_query() && q.drop_first()[i].ticket() == t;
                        assert(q[i + 1].is_query());
                    }
                }
                assert(query_tickets(q) =~= query_tickets(q.drop_first()).insert(ticket));
            },
        }
    }
}

/// The startup step as the schema sees it: each required table comes to
/// exist where it was absent, and nothing else changes.
pub open spec fn with_startup_tables(schema: Set<Seq<char>>) -> Set<Seq<char>> {
    schema.insert("users"@).insert("load"@)
}

/// Idempotence of startup: running the table-creation step a second
/// time leaves the schema exactly as the first run left it.
pub proof fn lemma_startup_idempotent(schema: Set<Seq<char>>)
    ensures
        with_startup_tables(with_startup_tables(schema)) == with_startup_tables(schema),
{
    assert(with_startup_tables(with_startup_tables(schema)) =~= with_startup_tables(schema));
}

} // verus!
