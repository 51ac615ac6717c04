//! Records of a library scan.

use vstd::prelude::*;

verus! {

/// How much of the library a scan reads again.
#[derive(Debug, Clone, Copy, PartialEq, Eq, Default)]
pub enum ScanMode {
    #[default]
    Full,
    Incremental,
}

/// The progress of a running scan.
#[derive(Debug, Clone)]
pub struct ScanProgress {
    pub phase: ScanPhase,
    pub total: usize,
    pub processed: usize,
    pub current_file: Option<String>,
    pub skipped: usize,
    pub errors: usize,
}

/// The phase of a running scan.
#[derive(Debug, Clone, Copy, PartialEq, Eq, Structural)]
pub enum ScanPhase {
    Collecting,
    Checking,
    Scanning,
    Saving,
    Cleanup,
    Complete,
}

/// The summary of a finished scan; the duration is in milliseconds.
#[derive(Debug, Clone)]
pub struct ScanResult {
    pub total_songs: usize,
    pub added: usize,
    pub updated: usize,
    pub removed: usize,
    pub skipped: usize,
    pub errors: usize,
    pub duration_ms: u64,
}

/// Which servers a scan covers: one, or all that are enabled.
#[derive(Debug, Clone)]
pub struct StreamScanOptions {
    pub server_id: Option<String>,
}

} // verus!
