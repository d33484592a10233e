use jairika::storage::{
    MAX_COMPACTION_SEGMENT_SIZE, MAX_KEY_SIZE, MAX_SEGMENT_SIZE, MAX_VALUE_CACHE_SIZE,
    MAX_VALUE_SIZE, MAX_VALUE_THRESHOLD,
};
use jairika::{IsolationLevel, StoreOptions};

#[test]
fn ceilings_are_the_documented_ones() {
    assert_eq!(MAX_KEY_SIZE, 1024);
    assert_eq!(MAX_VALUE_SIZE, 1024 * 1024);
    assert_eq!(MAX_VALUE_THRESHOLD, 64);
    assert_eq!(MAX_VALUE_CACHE_SIZE, 100000);
    assert_eq!(MAX_SEGMENT_SIZE, 1 << 29);
    assert_eq!(MAX_COMPACTION_SEGMENT_SIZE, 1 << 30);
}

#[test]
fn options_are_on_disk_at_the_address_under_snapshot_isolation() {
    let options = StoreOptions::new("path/to/model");
    assert!(options.disk_persistence);
    assert_eq!(options.dir, "path/to/model");
    assert_eq!(options.isolation_level, IsolationLevel::SnapshotIsolation);
    assert_eq!(options.max_key_size, 1024);
    assert_eq!(options.max_value_size, 1_048_576);
    assert_eq!(options.max_value_threshold, 64);
    assert_eq!(options.max_value_cache_size, 100_000);
    assert_eq!(options.max_segment_size, 536_870_912);
    assert_eq!(options.max_compaction_segment_size, 1_073_741_824);
}

#[test]
fn serializable_changes_the_isolation_level_only() {
    let options = StoreOptions::new("m").serializable();
    assert_eq!(options.isolation_level, IsolationLevel::SerializableSnapshotIsolation);
    assert!(options.disk_persistence);
    assert_eq!(options.dir, "m");
    assert_eq!(options.max_key_size, 1024);
    assert_eq!(options.max_value_size, 1_048_576);
    assert_eq!(options.max_value_threshold, 64);
    assert_eq!(options.max_value_cache_size, 100_000);
    assert_eq!(options.max_segment_size, 536_870_912);
    assert_eq!(options.max_compaction_segment_size, 1_073_741_824);
}
