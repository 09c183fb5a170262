use task_tracker::flag::TrackingFlag;
use task_tracker::sample::TrackingData;
use task_tracker::store::SampleStore;

fn sample(n: i32) -> TrackingData {
    TrackingData::from_reading(format!("t{}", n), n, n + 1, vec![format!("K{}", n)])
}

#[test]
fn new_store_is_empty() {
    let store = SampleStore::new();
    assert_eq!(store.len(), 0);
    assert!(store.snapshot_for_persist().is_empty());
}

#[test]
fn append_grows_the_store_by_one() {
    let mut store = SampleStore::new();
    for n in 0..5 {
        let before = store.len();
        store.append(sample(n));
        assert_eq!(store.len(), before + 1);
    }
    assert_eq!(store.len(), 5);
}

#[test]
fn clear_leaves_no_sample() {
    let mut store = SampleStore::new();
    store.clear();
    assert_eq!(store.len(), 0);
    store.append(sample(1));
    store.append(sample(2));
    store.clear();
    assert_eq!(store.len(), 0);
    assert!(store.snapshot_for_persist().is_empty());
    store.append(sample(3));
    assert_eq!(store.len(), 1);
    assert_eq!(store.snapshot_for_persist(), vec![sample(3)]);
}

#[test]
fn snapshot_holds_the_samples_in_sampling_order() {
    let mut store = SampleStore::new();
    store.append(sample(3));
    store.append(sample(1));
    store.append(sample(2));
    store.append(sample(1));
    assert_eq!(store.snapshot_for_persist(), vec![sample(3), sample(1), sample(2), sample(1)]);
}

#[test]
fn snapshot_is_a_copy() {
    let mut store = SampleStore::new();
    store.append(sample(1));
    let snapshot = store.snapshot_for_persist();
    store.append(sample(2));
    store.clear();
    assert_eq!(snapshot, vec![sample(1)]);
    assert_eq!(store.len(), 0);
}

#[test]
fn new_flag_is_off() {
    assert!(!TrackingFlag::new().get());
}

#[test]
fn set_stores_the_value() {
    let mut flag = TrackingFlag::new();
    flag.set(true);
    assert!(flag.get());
    flag.set(true);
    assert!(flag.get());
    flag.set(false);
    assert!(!flag.get());
}

#[test]
fn toggle_flips_and_returns_the_new_value() {
    let mut flag = TrackingFlag::new();
    assert!(flag.toggle());
    assert!(flag.get());
    assert!(!flag.toggle());
    assert!(!flag.get());
}
