//! Family watcher service: persists family watchers and resolves the
//! set to notify for a completed workload's family.  Family watchers
//! are fire-and-forget: no per-call record is kept and they fire on
//! every matching completion.

use vstd::prelude::*;
use crate::models::JobFamilyWatcher;
use crate::repository::{
    family_watchers_matching, InMemoryJobFamilyWatcherRepository, StorageError,
};

verus! {

/// Persists a family watcher.
pub fn create_job_family_watcher(
    job_family_watcher_repository: &mut InMemoryJobFamilyWatcherRepository,
    job_family_watcher: JobFamilyWatcher,
) -> (r: Result<(), StorageError>)
    ensures
        r is Ok,
        final(job_family_watcher_repository)@ == old(job_family_watcher_repository)@.push(
            job_family_watcher@,
        ),
{
    job_family_watcher_repository.create_job_family_watcher(job_family_watcher)
}

/// The family watchers to notify for `job_family`: every stored
/// watcher bound to that family, in insertion order.  The caller
/// posts each watcher's request body to its URL.
pub fn job_family_watchers_to_notify(
    job_family_watcher_repository: &InMemoryJobFamilyWatcherRepository,
    job_family: &str,
) -> (r: Vec<JobFamilyWatcher>)
    ensures
        r@.map_values(|w: JobFamilyWatcher| w@) == family_watchers_matching(
            job_family_watcher_repository@,
            job_family@,
        ),
{
    job_family_watcher_repository.find_all_job_family_watchers_by_job_family(job_family)
}

} // verus!
