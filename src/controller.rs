//! Controller mode: the fixed workload, the number of workers, and the report.
use vstd::prelude::*;
use crate::results::count_succeeded;
use crate::results::ResultTable;

verus! {

/// At most this many workers per CPU core are started.
pub const WORKERS_PER_CORE: usize = 2;

/// Why a build cannot start.
#[derive(Debug, PartialEq, Eq, Structural, Copy, Clone)]
pub enum WorkloadError {
    /// No source files were given.
    NoFiles,
}

/// The workload of a build: the given files, or an error when there are none.
pub fn determine_workload(files: Vec<String>) -> (r: Result<Vec<String>, WorkloadError>)
    ensures
        match r {
            Ok(w) => files@.len() > 0 && w@ == files@,
            Err(e) => files@.len() == 0 && e == WorkloadError::NoFiles,
        },
{
    if files.len() == 0 {
        Err(WorkloadError::NoFiles)
    } else {
        Ok(files)
    }
}

/// The number of workers to start for `requested` on a machine with `cpu_count`
/// cores, and whether it was lowered: never more than twice the cores, never
/// raised.
pub fn validate_worker_count(requested: usize, cpu_count: usize) -> (r: (usize, bool))
    ensures
        if requested > WORKERS_PER_CORE * cpu_count {
            r.0 == WORKERS_PER_CORE * cpu_count && r.1
        } else {
            r.0 == requested && !r.1
        },
{
    if cpu_count <= usize::MAX / WORKERS_PER_CORE && requested > WORKERS_PER_CORE * cpu_count {
        (WORKERS_PER_CORE * cpu_count, true)
    } else {
        (requested, false)
    }
}

/// The outcome of a build.
pub struct BuildReport {
    pub total: usize,
    pub succeeded: usize,
}

impl BuildReport {
    /// Whether every task of the build succeeded.
    pub fn all_succeeded(&self) -> (r: bool)
        ensures
            r == (self.succeeded == self.total),
    {
        self.succeeded == self.total
    }
}

/// The report of a build of `total` tasks whose outcomes are in `results`.
pub fn build_report(total: usize, results: &ResultTable) -> (r: BuildReport)
    ensures
        r.total == total,
        r.succeeded == count_succeeded(results@),
{
    BuildReport { total, succeeded: results.succeeded() }
}

} // verus!
