use store_actor::channel::{
    clone_command_sender, command_channel, reply_channel, send_command, CommandSender,
};
use store_actor::command::Command;
use store_actor::correlator::{interpret_reply, submit_query};
use store_actor::status::StatusBus;
use store_actor::store::open_connection;
use store_actor::writer::WriterActor;

fn spawn_writer() -> (
    tokio::runtime::Runtime,
    CommandSender,
    tokio::task::JoinHandle<(u64, u64)>,
) {
    let rt = tokio::runtime::Builder::new_multi_thread().build().unwrap();
    let (tx, mut rx) = command_channel();
    let conn = open_connection(":memory:").unwrap();
    let handle = rt.spawn_blocking(move || {
        let mut w = WriterActor::new(conn);
        let _ = w.run(&mut rx, u64::MAX);
        (w.counters.reads, w.counters.writes)
    });
    (rt, tx, handle)
}

#[test]
fn insert_then_query_round_trip() {
    let (rt, tx, handle) = spawn_writer();
    assert!(send_command(
        &tx,
        Command::Execute("INSERT INTO users VALUES ('alice', 'a@x.com', '30')".to_string())
    ));
    let r = submit_query(&tx, "SELECT name FROM users WHERE name='alice'".to_string());
    assert_eq!(r, Ok("alice".to_string()));
    drop(tx);
    let (reads, writes) = rt.block_on(handle).unwrap();
    assert_eq!(reads, 1);
    assert_eq!(writes, 1);
}

#[test]
fn fifty_concurrent_queries_on_empty_table_all_err() {
    let (rt, tx, handle) = spawn_writer();
    let mut joins = Vec::new();
    for _ in 0..50 {
        let txc = clone_command_sender(&tx);
        joins.push(rt.spawn_blocking(move || {
            submit_query(&txc, "SELECT name FROM users LIMIT 1".to_string())
        }));
    }
    for j in joins {
        let r = rt.block_on(j).unwrap();
        assert!(r.is_err());
    }
    // The actor loop is still alive: an insert followed by a 51st query succeeds.
    assert!(send_command(
        &tx,
        Command::Execute("INSERT INTO users VALUES ('bob', 'b@x.com', '41')".to_string())
    ));
    let r = submit_query(&tx, "SELECT name FROM users LIMIT 1".to_string());
    assert_eq!(r, Ok("bob".to_string()));
    drop(tx);
    let (reads, _) = rt.block_on(handle).unwrap();
    assert_eq!(reads, 51);
}

#[test]
fn concurrent_executes_are_all_reflected() {
    let (rt, tx, handle) = spawn_writer();
    let mut joins = Vec::new();
    for i in 0..10 {
        let txc = clone_command_sender(&tx);
        joins.push(rt.spawn_blocking(move || {
            send_command(
                &txc,
                Command::Execute(format!("INSERT INTO users VALUES ('u{}', 'e{}@x.com', '1')", i, i)),
            )
        }));
    }
    for j in joins {
        assert!(rt.block_on(j).unwrap());
    }
    let r = submit_query(&tx, "SELECT CAST(COUNT(*) AS TEXT) FROM users".to_string());
    assert_eq!(r, Ok("10".to_string()));
    drop(tx);
    rt.block_on(handle).unwrap();
}

#[test]
fn dropped_reply_channel_does_not_stall_writer() {
    let (rt, tx, handle) = spawn_writer();
    let (reply_tx, reply_rx) = reply_channel();
    drop(reply_rx);
    assert!(send_command(
        &tx,
        Command::Query("SELECT name FROM users LIMIT 1".to_string(), reply_tx)
    ));
    // The next command is still processed.
    let r = submit_query(&tx, "SELECT 'ok'".to_string());
    assert_eq!(r, Ok("ok".to_string()));
    drop(tx);
    rt.block_on(handle).unwrap();
}

#[test]
fn failing_statement_does_not_stop_later_commands() {
    let (rt, tx, handle) = spawn_writer();
    assert!(send_command(&tx, Command::Execute("THIS IS NOT SQL".to_string())));
    let r = submit_query(&tx, "SELECT NOT EITHER".to_string());
    assert!(r.is_err());
    assert!(send_command(
        &tx,
        Command::Execute("INSERT INTO users VALUES ('carol', 'c@x.com', '22')".to_string())
    ));
    let r = submit_query(&tx, "SELECT name FROM users WHERE name='carol'".to_string());
    assert_eq!(r, Ok("carol".to_string()));
    drop(tx);
    rt.block_on(handle).unwrap();
}

#[test]
fn handle_reports_execute_and_query_outcomes() {
    let conn = open_connection(":memory:").unwrap();
    let mut w = WriterActor::new(conn);
    w.ensure_tables().unwrap();
    match w.handle(Command::Execute("INSERT INTO users VALUES ('eve', 'e@x.com', '9')".to_string()))
    {
        store_actor::writer::Handled::Executed(r) => assert_eq!(r, Ok(1)),
        _ => panic!("an Execute must come back as an execute outcome"),
    }
    let (reply_tx, reply_rx) = reply_channel();
    match w.handle(Command::Query("SELECT name FROM users LIMIT 1".to_string(), reply_tx)) {
        store_actor::writer::Handled::Answered(echo, delivered) => {
            assert!(delivered);
            assert_eq!(echo, Ok("eve".to_string()));
        }
        _ => panic!("a Query must come back as a query outcome"),
    }
    // The reply on the command's own channel is the very value reported.
    assert_eq!(store_actor::channel::recv_reply(reply_rx), Some(Ok("eve".to_string())));
    assert_eq!(w.counters.reads, 1);
    assert_eq!(w.counters.writes, 1);
}

#[test]
fn ensure_tables_twice_is_idempotent() {
    let conn = open_connection(":memory:").unwrap();
    let mut w = WriterActor::new(conn);
    assert!(w.ensure_tables().is_ok());
    assert!(w.ensure_tables().is_ok());
}

#[test]
fn interpret_reply_maps_closed_channel_to_sentinel() {
    assert_eq!(interpret_reply(None), Err("Unknown".to_string()));
    assert_eq!(interpret_reply(Some(Ok("x".to_string()))), Ok("x".to_string()));
    assert_eq!(interpret_reply(Some(Err("e".to_string()))), Err("e".to_string()));
}

#[test]
fn greet_on_empty_table_uses_sentinel_and_publishes() {
    let rt = tokio::runtime::Builder::new_multi_thread().build().unwrap();
    let (state, mut rx) = store_actor::state::setup(16);
    let conn = open_connection(":memory:").unwrap();
    let handle = rt.spawn_blocking(move || {
        let mut w = WriterActor::new(conn);
        let _ = w.run(&mut rx, u64::MAX);
    });
    let mut observer = state.observer();
    let msg = state.greet();
    assert_eq!(msg, "Hello, \"Unknown\"! You've been greeted from Rust!".to_string());
    assert_eq!(observer.next_message(), Some(msg));
    drop(state);
    rt.block_on(handle).unwrap();
}

#[test]
fn greet_after_insert_uses_stored_name() {
    let (rt, tx, handle) = spawn_writer();
    let state = store_actor::state::SharedState::new(tx, StatusBus::new(16));
    assert!(send_command(
        &state.commands,
        Command::Execute("INSERT INTO users VALUES ('dave', 'd@x.com', '55')".to_string())
    ));
    let copy = state.duplicate();
    let msg = copy.greet();
    assert_eq!(msg, "Hello, \"dave\"! You've been greeted from Rust!".to_string());
    drop(copy);
    drop(state);
    rt.block_on(handle).unwrap();
}
