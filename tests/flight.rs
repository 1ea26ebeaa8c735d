use memo_cache::cache::Cache;
use memo_cache::flight::{State, Step, Store};

fn square(k: u64) -> Result<u64, String> {
    Ok(k * k)
}

#[test]
fn ten_callers_share_one_computation() {
    // ten callers ask for key 5 before the first computation finishes
    let mut store = Store::new();
    let mut counter = 0u64;
    let mut computing = Vec::new();
    let mut waiting = Vec::new();
    for caller in 0..10u64 {
        match store.begin(5, caller) {
            Step::Compute => computing.push(caller),
            Step::Wait => waiting.push(caller),
            Step::Hit(_) => panic!("nothing was computed yet"),
        }
    }
    assert_eq!(computing, vec![0]);
    assert_eq!(waiting.len(), 9);
    counter += 1;
    let v = square(5).unwrap();
    let released = store.complete(5, v);
    assert_eq!(released, (1..10u64).collect::<Vec<u64>>());
    let mut answers = vec![v];
    for _ in &released {
        answers.push(store.get_ready(5).unwrap());
    }
    assert_eq!(answers, vec![25; 10]);
    assert_eq!(counter, 1);

    match store.begin(6, 10) {
        Step::Compute => {
            counter += 1;
            let released = store.complete(6, square(6).unwrap());
            assert!(released.is_empty());
        }
        other => panic!("unexpected {:?}", other),
    }
    assert_eq!(store.get_ready(6), Some(36));
    assert_eq!(counter, 2);
    assert_eq!(store.misses(), 2);
}

#[test]
fn ready_value_is_returned_without_computing() {
    let mut store = Store::new();
    assert_eq!(store.begin(1, 0), Step::Compute);
    store.complete(1, 7);
    for w in 1..5u64 {
        assert_eq!(store.begin(1, w), Step::Hit(7));
    }
    assert_eq!(store.lookup(1), Some(State::Ready(7)));
    assert_eq!(store.hits(), 4);
    assert_eq!(store.misses(), 1);
}

#[test]
fn failure_releases_waiters_and_allows_retry() {
    let mut store = Store::new();
    assert_eq!(store.begin(3, 0), Step::Compute);
    assert_eq!(store.begin(3, 1), Step::Wait);
    assert_eq!(store.begin(3, 2), Step::Wait);
    assert_eq!(store.lookup(3), Some(State::Pending));
    assert_eq!(store.fail(3), vec![1, 2]);
    assert_eq!(store.lookup(3), None);
    assert_eq!(store.begin(3, 3), Step::Compute);
    assert_eq!(store.complete(3, 9), Vec::<u64>::new());
    assert_eq!(store.begin(3, 4), Step::Hit(9));
    assert_eq!(store.misses(), 2);
}

#[test]
fn keys_do_not_block_each_other() {
    let mut store = Store::new();
    assert_eq!(store.begin(1, 0), Step::Compute);
    assert_eq!(store.begin(2, 1), Step::Compute);
    assert_eq!(store.complete(2, 4), Vec::<u64>::new());
    assert_eq!(store.get_ready(2), Some(4));
    assert_eq!(store.lookup(1), Some(State::Pending));
    assert_eq!(store.get_ready(1), None);
}

#[test]
fn insert_pending_has_one_winner() {
    let mut store = Store::new();
    assert!(store.insert_pending(8));
    assert!(!store.insert_pending(8));
    store.complete(8, 1);
    assert!(!store.insert_pending(8));
    assert_eq!(store.get_ready(8), Some(1));
}

#[test]
fn cache_computes_once_per_key() {
    let mut cache = Cache::new();
    assert_eq!(cache.get_or_compute(5, &square), Ok(25));
    assert_eq!(cache.get_or_compute(5, &|_k: u64| Ok::<u64, String>(0)), Ok(25));
    assert_eq!(cache.get_or_compute(6, &square), Ok(36));
    assert_eq!(cache.computations(), 2);
    assert_eq!(cache.get(5), Some(25));
}

#[test]
fn cache_retries_after_failure() {
    let mut cache = Cache::new();
    let failing = |_k: u64| Err::<u64, String>(String::from("down"));
    assert_eq!(cache.get_or_compute(4, &failing), Err(String::from("down")));
    assert_eq!(cache.get(4), None);
    assert_eq!(cache.get_or_compute(4, &square), Ok(16));
    assert_eq!(cache.get(4), Some(16));
    assert_eq!(cache.computations(), 2);
}
