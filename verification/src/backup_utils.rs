//! The data a test harness threads through a backup service run: identifiers
//! and the sizes of what was uploaded, for later comparison with what comes
//! back.

use vstd::prelude::*;

verus! {

/// One backup run's identifiers and payload sizes.
pub struct BackupData {
    pub user_id: String,
    pub device_id: String,
    pub backup_id: String,
    /// Size of each compaction chunk sent.
    pub backup_chunk_sizes: Vec<usize>,
    /// For each log, the size of each of its chunks.
    pub logs_sizes: Vec<Vec<usize>>,
}

} // verus!
