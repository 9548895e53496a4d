use store_actor::load::LoadGenerator;
use store_actor::rand_name::generate_random_name;
use store_actor::status::StatusBus;
use store_actor::store::{
    enable_wal_mode, exec_sql, open_memory_pool, query_first_text,
};

#[test]
fn pool_connections_share_one_store() {
    let pool = open_memory_pool(2).unwrap();
    let h1 = pool.checkout().unwrap();
    exec_sql(h1.conn(), "CREATE TABLE IF NOT EXISTS load (bar INTEGER)").unwrap();
    exec_sql(h1.conn(), "INSERT INTO load (bar) VALUES (7)").unwrap();
    drop(h1);
    let h2 = pool.checkout().unwrap();
    let r = query_first_text(h2.conn(), "SELECT CAST(MAX(bar) AS TEXT) FROM load");
    assert_eq!(r, Ok("7".to_string()));
}

#[test]
fn checkout_beyond_pool_size_waits_then_proceeds() {
    let pool = open_memory_pool(1).unwrap();
    let h1 = pool.checkout().unwrap();
    drop(h1);
    // The single handle was returned, so a second checkout proceeds.
    let h2 = pool.checkout().unwrap();
    let r = query_first_text(h2.conn(), "SELECT 'free'");
    assert_eq!(r, Ok("free".to_string()));
}

#[test]
fn load_generator_appends_increasing_samples() {
    let pool = open_memory_pool(2).unwrap();
    let h = pool.checkout().unwrap();
    exec_sql(h.conn(), "CREATE TABLE IF NOT EXISTS load (bar INTEGER)").unwrap();
    drop(h);
    let mut g = LoadGenerator::new();
    assert_eq!(g.counter, 1);
    assert!(g.step(&pool));
    assert!(g.step(&pool));
    assert!(g.step(&pool));
    assert_eq!(g.counter, 4);
    let h = pool.checkout().unwrap();
    let count = query_first_text(h.conn(), "SELECT CAST(COUNT(*) AS TEXT) FROM load");
    assert_eq!(count, Ok("3".to_string()));
    let top = query_first_text(h.conn(), "SELECT CAST(MAX(bar) AS TEXT) FROM load");
    assert_eq!(top, Ok("3".to_string()));
}

#[test]
fn load_generator_survives_missing_table() {
    let pool = open_memory_pool(1).unwrap();
    let mut g = LoadGenerator::new();
    // No load table exists: the step fails but the counter still advances.
    assert!(!g.step(&pool));
    assert_eq!(g.counter, 2);
}

#[test]
fn status_bus_no_replay_before_subscription() {
    let bus = StatusBus::new(8);
    assert_eq!(bus.publish("early".to_string()), 0);
    let mut observer = bus.subscribe();
    assert_eq!(bus.publish("later".to_string()), 1);
    assert_eq!(observer.next_message(), Some("later".to_string()));
}

#[test]
fn status_bus_fans_out_to_each_observer() {
    let bus = StatusBus::new(8);
    let mut a = bus.subscribe();
    let mut b = bus.subscribe();
    assert_eq!(bus.publish("tick".to_string()), 2);
    assert_eq!(a.next_message(), Some("tick".to_string()));
    assert_eq!(b.next_message(), Some("tick".to_string()));
}

#[test]
fn random_name_has_asked_length_and_alphabet() {
    let name = generate_random_name(16);
    assert_eq!(name.len(), 16);
    assert!(name.chars().all(|c| c.is_ascii_alphanumeric()));
    assert_eq!(generate_random_name(0), "".to_string());
}

#[test]
fn wal_mode_reports_journal_mode() {
    // An in-memory store cannot use write-ahead logging and says so.
    let r = enable_wal_mode(":memory:");
    assert_eq!(r, Ok("memory".to_string()));
}
