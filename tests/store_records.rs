use healthcheck_watcher::ingest::record_now;
use healthcheck_watcher::store::HeartbeatStore;

fn id(v: &str) -> String {
    v.to_string()
}

#[test]
fn heartbeat_is_stale_from_its_own_time_on() {
    let mut st = HeartbeatStore::new();
    st.record_heartbeat(id("E"), 500);
    assert!(st.query_stale(499).is_empty());
    assert!(st.query_stale(-1).is_empty());
    assert_eq!(st.query_stale(500), vec![id("E")]);
    assert_eq!(st.query_stale(10_000), vec![id("E")]);
}

#[test]
fn repeated_heartbeat_changes_nothing() {
    let mut once = HeartbeatStore::new();
    once.record_heartbeat(id("a"), 7);
    once.record_heartbeat(id("b"), 3);
    let mut twice = HeartbeatStore::new();
    twice.record_heartbeat(id("a"), 7);
    twice.record_heartbeat(id("b"), 3);
    twice.record_heartbeat(id("b"), 3);
    assert_eq!(twice.len(), once.len());
    assert_eq!(twice.query_stale(i64::MAX), once.query_stale(i64::MAX));
    assert_eq!(twice.score_of(&id("b")), Some(3));
}

#[test]
fn newer_heartbeat_replaces_older() {
    let mut st = HeartbeatStore::new();
    st.record_heartbeat(id("a"), 10);
    st.record_heartbeat(id("a"), 50);
    assert_eq!(st.len(), 1);
    assert_eq!(st.score_of(&id("a")), Some(50));
    assert!(st.query_stale(49).is_empty());
}

#[test]
fn eviction_removes_exactly_the_old_records() {
    let mut st = HeartbeatStore::new();
    st.record_heartbeat(id("a"), 10);
    st.record_heartbeat(id("b"), 20);
    st.record_heartbeat(id("c"), 30);
    st.record_heartbeat(id("d"), 20);
    st.evict_stale(20);
    assert_eq!(st.len(), 1);
    assert_eq!(st.score_of(&id("a")), None);
    assert_eq!(st.score_of(&id("b")), None);
    assert_eq!(st.score_of(&id("d")), None);
    assert_eq!(st.score_of(&id("c")), Some(30));
}

#[test]
fn eviction_on_empty_store_is_harmless() {
    let mut st = HeartbeatStore::new();
    st.evict_stale(i64::MAX);
    assert_eq!(st.len(), 0);
    assert!(st.query_stale(i64::MAX).is_empty());
}

#[test]
fn stale_list_ascends_by_timestamp() {
    let mut st = HeartbeatStore::new();
    st.record_heartbeat(id("late"), 300);
    st.record_heartbeat(id("early"), 100);
    st.record_heartbeat(id("fresh"), 900);
    st.record_heartbeat(id("middle"), 200);
    assert_eq!(st.query_stale(300), vec![id("early"), id("middle"), id("late")]);
}

#[test]
fn extreme_timestamps_are_kept() {
    let mut st = HeartbeatStore::new();
    st.record_heartbeat(id("min"), i64::MIN);
    st.record_heartbeat(id("max"), i64::MAX);
    assert_eq!(st.query_stale(i64::MIN), vec![id("min")]);
    assert_eq!(st.query_stale(i64::MAX), vec![id("min"), id("max")]);
}

#[test]
fn record_now_uses_the_clock() {
    let mut st = HeartbeatStore::new();
    let t = record_now(&mut st, id("job"));
    assert!(t > 1_600_000_000);
    assert_eq!(st.score_of(&id("job")), Some(t));
}
