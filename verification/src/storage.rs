//! What a node's store reports about itself.

use vstd::prelude::*;

verus! {

/// Counters of a store on disk.
#[derive(Clone, Copy, PartialEq, Eq, Structural, Debug)]
pub struct StorageMetrics {
    /// Highest durably purged log index.
    pub purged_index: u64,
    /// Memory held by memtables, in bytes.
    pub rocks_memtable_bytes: u64,
    /// Memory held by table readers, in bytes.
    pub rocks_table_readers_bytes: u64,
    /// Files at level 0.
    pub rocks_level0_files: u64,
    /// `1` while the store is stopping writes.
    pub rocks_write_stopped: u64,
    /// Age of the published snapshot, in milliseconds.
    pub snapshot_age_ms: u64,
    /// Size of the published snapshot.
    pub snapshot_size_bytes: u64,
    /// Duration of the last successful snapshot build, in milliseconds.
    pub snapshot_build_duration_ms: u64,
    /// Snapshot builds that succeeded.
    pub snapshot_builds: u64,
    /// Builds started and not yet published or failed.
    pub snapshot_builds_in_flight: u64,
    /// Snapshots installed.
    pub snapshot_installs: u64,
    /// Snapshots whose validation failed.
    pub snapshot_install_failures: u64,
    /// Installs finished again after a crash.
    pub snapshot_install_redos: u64,
    /// Log purges done.
    pub purges: u64,
    /// Log purges put off.
    pub purge_deferrals: u64,
    /// Log purges refused.
    pub purge_refusals: u64,
}

/// Counters of the bounded deduplication index.
#[derive(Clone, Copy, PartialEq, Eq, Structural, Debug)]
pub struct DedupStats {
    /// Mutations answered from a retained record.
    pub hits: u64,
    /// Records retained.
    pub records: u64,
    /// The configured cap.
    pub max_records: u64,
    /// Records that left a client's window.
    pub window_evictions: u64,
    /// Records that a compaction trimmed.
    pub trim_evictions: u64,
    /// Outcomes that the cap refused to retain.
    pub cap_refusals: u64,
}

/// The shape of the retained journal, as the store reads it.
#[derive(Clone, Copy, PartialEq, Eq, Structural, Debug)]
pub struct JournalStats {
    /// Oldest retained revision, if any.
    pub oldest_revision: Option<u64>,
    /// Newest retained revision, if any.
    pub newest_revision: Option<u64>,
    /// Retained events.
    pub count: u64,
    /// Retained serialized bytes.
    pub bytes: u64,
}

/// What a store guarantees survives a restart.
#[derive(Clone, Copy, PartialEq, Eq, Structural, Debug)]
pub enum Durability {
    /// Nothing.
    Ephemeral,
    /// Everything committed.
    Durable,
}

} // verus!
