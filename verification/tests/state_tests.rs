use operator_node::identity::OperatorIdentity;
use operator_node::state::{CacheOutcome, ServerState};

const STATE_ADDR: &str = "0x0f65fe9276bc9a24ae7083ae28e2660ef72df99e";
const STATE_KEY: &str = "4c0883a69102937d6231471b5dbb6204fe5129617082792ae468d01a3f362318";

fn state_with_capacity(capacity: u64) -> ServerState {
    let identity = OperatorIdentity::resolve(STATE_ADDR, STATE_KEY).ok().expect("well formed");
    ServerState::new(identity, capacity)
}

fn offer(state: &mut ServerState, id: &str) -> CacheOutcome {
    state.insert(id.to_string())
}

#[test]
fn new_state_is_empty_and_keeps_its_seed() {
    let state = state_with_capacity(3);
    assert_eq!(state.len(), 0);
    assert_eq!(state.cache_capacity(), 3);
    assert!(state.cached_ids().is_empty());
    assert_eq!(state.identity().node_id(), STATE_ADDR);
    assert!(!state.contains("a"));
}

#[test]
fn insert_adds_at_the_young_end() {
    let mut state = state_with_capacity(3);
    assert!(matches!(offer(&mut state, "a"), CacheOutcome::Stored));
    assert!(matches!(offer(&mut state, "b"), CacheOutcome::Stored));
    assert_eq!(state.cached_ids(), vec!["a".to_string(), "b".to_string()]);
    assert_eq!(state.len(), 2);
    assert!(state.contains("a"));
    assert!(state.contains("b"));
    assert!(!state.contains("c"));
}

#[test]
fn insert_beyond_capacity_evicts_the_oldest() {
    let mut state = state_with_capacity(2);
    offer(&mut state, "a");
    offer(&mut state, "b");
    match offer(&mut state, "c") {
        CacheOutcome::StoredEvicting { evicted } => assert_eq!(evicted, "a"),
        other => panic!("{:?}", other),
    }
    assert_eq!(state.cached_ids(), vec!["b".to_string(), "c".to_string()]);
    assert!(!state.contains("a"));
}

#[test]
fn capacity_plus_one_distinct_ids_leave_capacity() {
    for capacity in 0u64..6 {
        let mut state = state_with_capacity(capacity);
        for n in 0..capacity + 1 {
            offer(&mut state, &format!("msg-{}", n));
            assert!(state.len() as u64 <= capacity);
        }
        assert_eq!(state.len() as u64, capacity);
        let expected: Vec<String> = (1..capacity + 1).map(|n| format!("msg-{}", n)).collect();
        assert_eq!(state.cached_ids(), expected);
    }
}

#[test]
fn capacity_plus_one_distinct_ids_fill_a_used_cache() {
    let mut state = state_with_capacity(3);
    offer(&mut state, "a");
    offer(&mut state, "b");
    // four distinct ids, two of them already held
    for id in ["b", "a", "c", "d"] {
        offer(&mut state, id);
    }
    assert_eq!(state.len(), 3);
    assert_eq!(state.cached_ids(), vec!["b".to_string(), "c".to_string(), "d".to_string()]);
}

#[test]
fn duplicate_insert_changes_nothing() {
    let mut state = state_with_capacity(2);
    offer(&mut state, "a");
    offer(&mut state, "b");
    let before = state.cached_ids();
    assert!(matches!(offer(&mut state, "a"), CacheOutcome::AlreadyPresent));
    assert!(matches!(offer(&mut state, "b"), CacheOutcome::AlreadyPresent));
    assert_eq!(state.cached_ids(), before);
    assert_eq!(state.len(), 2);
}

#[test]
fn duplicate_insert_does_not_renew_an_id() {
    let mut state = state_with_capacity(2);
    offer(&mut state, "a");
    offer(&mut state, "b");
    offer(&mut state, "a");
    match offer(&mut state, "c") {
        CacheOutcome::StoredEvicting { evicted } => assert_eq!(evicted, "a"),
        other => panic!("{:?}", other),
    }
}

#[test]
fn zero_capacity_holds_nothing() {
    let mut state = state_with_capacity(0);
    assert!(matches!(offer(&mut state, "a"), CacheOutcome::NotStored));
    assert!(matches!(offer(&mut state, "a"), CacheOutcome::NotStored));
    assert_eq!(state.len(), 0);
    assert!(!state.contains("a"));
}

#[test]
fn capacity_one_keeps_the_latest() {
    let mut state = state_with_capacity(1);
    offer(&mut state, "a");
    match offer(&mut state, "b") {
        CacheOutcome::StoredEvicting { evicted } => assert_eq!(evicted, "a"),
        other => panic!("{:?}", other),
    }
    assert_eq!(state.cached_ids(), vec!["b".to_string()]);
}

#[test]
fn ids_are_compared_as_text() {
    let mut state = state_with_capacity(4);
    offer(&mut state, "");
    offer(&mut state, "A");
    offer(&mut state, "a");
    offer(&mut state, "a ");
    assert_eq!(state.len(), 4);
    assert!(state.contains(""));
    assert!(matches!(offer(&mut state, ""), CacheOutcome::AlreadyPresent));
}
