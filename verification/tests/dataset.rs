use lancedb::table::dataset::{DatasetConsistencyWrapper, DatasetRef};

const MILLISECOND: u128 = 1_000_000;

#[test]
fn without_an_interval_a_table_keeps_what_it_loaded() {
    let table = DatasetConsistencyWrapper::new_latest("v1", None, 0);
    assert!(!table.needs_refresh(0));
    assert!(!table.needs_refresh(u128::MAX));
    assert_eq!(*table.get(), "v1");
}

#[test]
fn with_an_interval_of_zero_every_read_refreshes() {
    let mut table = DatasetConsistencyWrapper::new_latest("v1", Some(0), 5);
    assert!(table.needs_refresh(5));
    table.refreshed("v2", 5);
    assert_eq!(*table.get(), "v2");
    assert!(table.needs_refresh(5));
    assert!(table.needs_refresh(6));
}

#[test]
fn with_an_interval_a_read_refreshes_once_it_has_passed() {
    let interval = 100 * MILLISECOND;
    let mut table = DatasetConsistencyWrapper::new_latest(0, Some(interval), 1_000);
    assert!(!table.needs_refresh(1_000));
    assert!(!table.needs_refresh(1_000 + interval));
    assert!(table.needs_refresh(1_001 + interval));
    assert!(!table.needs_refresh(999));
    table.refreshed(1, 1_001 + interval);
    assert_eq!(*table.get(), 1);
    assert!(!table.needs_refresh(1_001 + interval));
    assert!(!table.needs_refresh(1_001 + 2 * interval));
    assert!(table.needs_refresh(1_002 + 2 * interval));
}

#[test]
fn a_pinned_table_never_refreshes() {
    let table = DatasetConsistencyWrapper::new_time_travel("v3", 3);
    assert!(!table.is_latest());
    assert_eq!(table.pinned_version(), Some(3));
    assert!(!table.needs_refresh(0));
    assert!(!table.needs_refresh(u128::MAX));
    assert_eq!(*table.get(), "v3");
}

#[test]
fn a_write_is_seen_by_the_table_that_made_it() {
    let mut table = DatasetConsistencyWrapper::new_latest(10, Some(100), 7);
    assert!(table.is_latest());
    assert_eq!(table.pinned_version(), None);
    table.set_latest(20);
    assert_eq!(*table.get(), 20);
    assert_eq!(
        table.state,
        DatasetRef::Latest { dataset: 20, read_consistency_interval: Some(100), last_consistency_check: 7 }
    );
    *table.get_mut() += 1;
    assert_eq!(*table.get(), 21);
    assert!(!table.needs_refresh(100));
}

#[test]
fn checking_out_the_latest_leaves_a_pinned_version() {
    let pinned = DatasetConsistencyWrapper::new_time_travel("v3", 3);
    let latest = pinned.as_latest("v9", Some(50), 1_000);
    assert_eq!(
        latest.state,
        DatasetRef::Latest {
            dataset: "v9",
            read_consistency_interval: Some(50),
            last_consistency_check: 1_000
        }
    );
    let same = latest.clone().as_latest("v10", None, 2_000);
    assert_eq!(same, latest);
}

#[test]
fn a_duplicate_is_in_the_same_state() {
    let table = DatasetConsistencyWrapper::new_latest(vec![1, 2], Some(9), 4);
    assert_eq!(table.duplicate(), table);
    let pinned = DatasetConsistencyWrapper::new_time_travel(vec![3], 8);
    assert_eq!(pinned.duplicate(), pinned);
    let mut changed = pinned.duplicate();
    changed.get_mut().push(4);
    assert_eq!(*pinned.get(), vec![3]);
    assert_eq!(changed.pinned_version(), Some(8));
}
