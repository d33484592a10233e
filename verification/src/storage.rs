//! The configuration of the transactional engine that persists a repository.

use vstd::prelude::*;
use vstd::string::*;

verus! {

/// The largest key that the engine takes, in bytes.
pub const MAX_KEY_SIZE: u64 = 1024;

/// The largest value that the engine takes, in bytes: one mebibyte.
pub const MAX_VALUE_SIZE: u64 = 1048576;

/// Values of at most this many bytes are stored inline, larger ones by reference.
pub const MAX_VALUE_THRESHOLD: usize = 64;

/// The number of values that the engine caches in memory.
pub const MAX_VALUE_CACHE_SIZE: u64 = 100000;

/// The largest segment file, in bytes: 512 mebibytes.
pub const MAX_SEGMENT_SIZE: u64 = 536870912;

/// The largest segment file that compaction writes, in bytes: one gibibyte.
pub const MAX_COMPACTION_SEGMENT_SIZE: u64 = 1073741824;

/// How the engine isolates transactions from each other.
#[derive(Clone, Copy, Debug, PartialEq, Eq, Structural)]
pub enum IsolationLevel {
    /// A transaction reads the state as of its start.
    SnapshotIsolation,
    /// As `SnapshotIsolation`, and of two transactions in conflict one fails.
    SerializableSnapshotIsolation,
}

/// The configuration with which the engine is opened.
#[derive(Debug)]
pub struct StoreOptions {
    /// Whether the data is kept on disk.
    pub disk_persistence: bool,
    /// The directory that holds the data: the repository's address.
    pub dir: String,
    pub isolation_level: IsolationLevel,
    pub max_key_size: u64,
    pub max_value_size: u64,
    pub max_value_threshold: usize,
    pub max_value_cache_size: u64,
    pub max_segment_size: u64,
    pub max_compaction_segment_size: u64,
}

impl Clone for StoreOptions {
    fn clone(&self) -> (r: StoreOptions)
        ensures
            r == *self,
    {
        StoreOptions {
            disk_persistence: self.disk_persistence,
            dir: self.dir.clone(),
            isolation_level: self.isolation_level,
            max_key_size: self.max_key_size,
            max_value_size: self.max_value_size,
            max_value_threshold: self.max_value_threshold,
            max_value_cache_size: self.max_value_cache_size,
            max_segment_size: self.max_segment_size,
            max_compaction_segment_size: self.max_compaction_segment_size,
        }
    }
}

impl StoreOptions {
    /// Whether the options are those of a repository at `address`, apart from
    /// the isolation level: on disk, in that directory, with the library's
    /// ceilings.
    pub open spec fn configured_for(self, address: Seq<char>) -> bool {
        &&& self.disk_persistence
        &&& self.dir@ == address
        &&& self.max_key_size == MAX_KEY_SIZE
        &&& self.max_value_size == MAX_VALUE_SIZE
        &&& self.max_value_threshold == MAX_VALUE_THRESHOLD
        &&& self.max_value_cache_size == MAX_VALUE_CACHE_SIZE
        &&& self.max_segment_size == MAX_SEGMENT_SIZE
        &&& self.max_compaction_segment_size == MAX_COMPACTION_SEGMENT_SIZE
    }

    /// The options of a repository at `address`: on disk, in that directory,
    /// under snapshot isolation, with the library's ceilings.
    pub fn new(address: &str) -> (options: StoreOptions)
        ensures
            options.configured_for(address@),
            options.isolation_level == IsolationLevel::SnapshotIsolation,
    {
        StoreOptions {
            disk_persistence: true,
            dir: String::from_str(address),
            isolation_level: IsolationLevel::SnapshotIsolation,
            max_key_size: MAX_KEY_SIZE,
            max_value_size: MAX_VALUE_SIZE,
            max_value_threshold: MAX_VALUE_THRESHOLD,
            max_value_cache_size: MAX_VALUE_CACHE_SIZE,
            max_segment_size: MAX_SEGMENT_SIZE,
            max_compaction_segment_size: MAX_COMPACTION_SEGMENT_SIZE,
        }
    }

    /// The same options under serializable snapshot isolation, the stricter
    /// mode that a caller may choose.
    pub fn serializable(self) -> (options: StoreOptions)
        ensures
            options.isolation_level == IsolationLevel::SerializableSnapshotIsolation,
            options.disk_persistence == self.disk_persistence,
            options.dir@ == self.dir@,
            options.max_key_size == self.max_key_size,
            options.max_value_size == self.max_value_size,
            options.max_value_threshold == self.max_value_threshold,
            options.max_value_cache_size == self.max_value_cache_size,
            options.max_segment_size == self.max_segment_size,
            options.max_compaction_segment_size == self.max_compaction_segment_size,
    {
        let mut options = self;
        options.isolation_level = IsolationLevel::SerializableSnapshotIsolation;
        options
    }
}

} // verus!
