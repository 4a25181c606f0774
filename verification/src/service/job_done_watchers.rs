//! Watcher service: idempotent creation, the deadline timer's
//! compare-and-set, the atomic claim, per-trigger outcome recording,
//! and the aggregate status reduction.
//!
//! The outbound HTTP calls themselves happen outside; this module
//! receives each call's classification and decides everything else.

use vstd::prelude::*;
use crate::external::{fresh_id, now_millis};
use crate::idempotency::{idempotency_contents, IdempotencyMap};
use crate::models::{
    watcher_step, CreateJobDoneTriggerWebhookRequest, CreateJobDoneWatcherRequest,
    JobDoneTriggerWebhook, JobDoneTriggerWebhookStatus, JobDoneWatcher, JobDoneWatcherStatus,
    WatcherModel, WebhookModel,
};
use crate::job_name::JobName;
use crate::repository::{
    claimed_watchers, trigger_with, triggers_contain_id, watcher_with_status,
    watcher_with_trigger_update, watchers_contain_id, watcher_ids_unique,
    webhooks_contain_id, InMemoryJobDoneWatcherRepository, InMemoryWebhookRepository,
    StorageError,
};

verus! {

// ---------------------------------------------------------------------
// Spec-level helpers and laws
// ---------------------------------------------------------------------

/// Every trigger of the watcher is untouched: not called, no attempt
/// instant.
pub open spec fn triggers_not_called(w: WatcherModel) -> bool {
    forall|j: int|
        0 <= j < w.job_done_trigger_webhooks.len() ==> {
            &&& (#[trigger] w.job_done_trigger_webhooks[j]).status
                == JobDoneTriggerWebhookStatus::NotCalled
            &&& w.job_done_trigger_webhooks[j].called_at is None
        }
}

/// The service invariant behind the timer race: a watcher that was
/// never claimed (`Pending`, or `Timeout` set by the timer) has every
/// trigger untouched.
pub open spec fn unclaimed_triggers_untouched(s: Seq<WatcherModel>) -> bool {
    forall|i: int|
        0 <= i < s.len() ==> (((#[trigger] s[i]).status == JobDoneWatcherStatus::Pending || s[i].status
            == JobDoneWatcherStatus::Timeout) ==> triggers_not_called(s[i]))
}

/// Every watcher's status either stayed put or moved along one allowed
/// edge of the state machine.
pub open spec fn watcher_statuses_step(s1: Seq<WatcherModel>, s2: Seq<WatcherModel>) -> bool {
    &&& s1.len() == s2.len()
    &&& forall|i: int|
        0 <= i < s1.len() ==> ((#[trigger] s2[i]).status == s1[i].status || watcher_step(
            s1[i].status,
            s2[i].status,
        ))
}

/// The number of triggers whose status is `Called`.
pub open spec fn count_called(ts: Seq<JobDoneTriggerWebhook>) -> nat
    decreases ts.len(),
{
    if ts.len() == 0 {
        0
    } else {
        count_called(ts.drop_last()) + (if ts.last().status == JobDoneTriggerWebhookStatus::Called {
            1nat
        } else {
            0nat
        })
    }
}

/// The aggregate status reduction: no failure means `Completed` (a
/// watcher without triggers completes trivially), no success means
/// `Failed`, anything else is `PartiallyCompleted`.
pub open spec fn spec_evaluate_job_done_watcher_status(
    success_count: int,
    failure_count: int,
) -> JobDoneWatcherStatus {
    if failure_count == 0 {
        JobDoneWatcherStatus::Completed
    } else if success_count == 0 {
        JobDoneWatcherStatus::Failed
    } else {
        JobDoneWatcherStatus::PartiallyCompleted
    }
}

/// Trigger identifiers within one watcher are pairwise distinct, as
/// identifiers are by the data model.
pub open spec fn trigger_ids_unique(ts: Seq<JobDoneTriggerWebhook>) -> bool {
    forall|i: int, j: int| 0 <= i < j < ts.len() ==> (#[trigger] ts[i]).id != (#[trigger] ts[j]).id
}

/// One trigger after its fan-out call: `Called` exactly when the
/// referenced webhook is stored and the transport delivered; a missing
/// referent fails the trigger.  The attempt instant is recorded either
/// way.
pub open spec fn fanned_out_trigger(
    webhooks: Seq<WebhookModel>,
    t: JobDoneTriggerWebhook,
    transport_delivered: bool,
    now: i64,
) -> JobDoneTriggerWebhook {
    trigger_with(
        t,
        if transport_delivered && webhooks_contain_id(webhooks, t.webhook_id) {
            JobDoneTriggerWebhookStatus::Called
        } else {
            JobDoneTriggerWebhookStatus::Failed
        },
        now,
    )
}

/// All triggers of one watcher after its fan-out, in order.
pub open spec fn fanned_out_triggers(
    webhooks: Seq<WebhookModel>,
    ts: Seq<JobDoneTriggerWebhook>,
    transport_delivered: Seq<bool>,
    now: i64,
) -> Seq<JobDoneTriggerWebhook> {
    Seq::new(
        ts.len(),
        |q: int| fanned_out_trigger(webhooks, ts[q], transport_delivered[q], now),
    )
}

/// The aggregate status a fan-out commits: the reduction of the
/// fanned-out triggers' outcomes.
pub open spec fn fanned_out_status(
    webhooks: Seq<WebhookModel>,
    ts: Seq<JobDoneTriggerWebhook>,
    transport_delivered: Seq<bool>,
    now: i64,
) -> JobDoneWatcherStatus {
    let fts = fanned_out_triggers(webhooks, ts, transport_delivered, now);
    spec_evaluate_job_done_watcher_status(
        count_called(fts) as int,
        fts.len() - count_called(fts),
    )
}

/// `count_called` never exceeds the number of triggers.
pub proof fn lemma_count_called_le(ts: Seq<JobDoneTriggerWebhook>)
    ensures
        count_called(ts) <= ts.len(),
    decreases ts.len(),
{
    if ts.len() > 0 {
        lemma_count_called_le(ts.drop_last());
    }
}

/// The two boundary cases of `count_called`: a full count means every
/// trigger was called, a zero count means none was.
pub proof fn lemma_count_called_bounds(ts: Seq<JobDoneTriggerWebhook>)
    ensures
        (count_called(ts) == ts.len()) <==> (forall|j: int|
            0 <= j < ts.len() ==> (#[trigger] ts[j]).status
                == JobDoneTriggerWebhookStatus::Called),
        (count_called(ts) == 0) <==> (forall|j: int|
            0 <= j < ts.len() ==> (#[trigger] ts[j]).status
                != JobDoneTriggerWebhookStatus::Called),
    decreases ts.len(),
{
    lemma_count_called_le(ts);
    if ts.len() > 0 {
        lemma_count_called_bounds(ts.drop_last());
        lemma_count_called_le(ts.drop_last());
        assert forall|j: int| 0 <= j < ts.len() - 1 implies ts.drop_last()[j] == ts[j] by {}
        assert(ts.last() == ts[ts.len() - 1]);
    }
}

/// Aggregate correctness: when every trigger was recorded as `Called`
/// or `Failed`, a `Completed` aggregate means every trigger was called,
/// a `Failed` aggregate means every trigger failed, and a
/// `PartiallyCompleted` aggregate means both outcomes occurred.
pub proof fn lemma_aggregate_status_correct(ts: Seq<JobDoneTriggerWebhook>)
    requires
        forall|j: int|
            0 <= j < ts.len() ==> ((#[trigger] ts[j]).status
                == JobDoneTriggerWebhookStatus::Called || ts[j].status
                == JobDoneTriggerWebhookStatus::Failed),
    ensures
        ({
            let st = spec_evaluate_job_done_watcher_status(
                count_called(ts) as int,
                ts.len() - count_called(ts),
            );
            &&& (st == JobDoneWatcherStatus::Completed ==> forall|j: int|
                0 <= j < ts.len() ==> (#[trigger] ts[j]).status
                    == JobDoneTriggerWebhookStatus::Called)
            &&& (st == JobDoneWatcherStatus::Failed ==> forall|j: int|
                0 <= j < ts.len() ==> (#[trigger] ts[j]).status
                    == JobDoneTriggerWebhookStatus::Failed)
            &&& (st == JobDoneWatcherStatus::PartiallyCompleted ==> ((exists|j: int|
                0 <= j < ts.len() && (#[trigger] ts[j]).status
                    == JobDoneTriggerWebhookStatus::Called) && (exists|j: int|
                0 <= j < ts.len() && (#[trigger] ts[j]).status
                    == JobDoneTriggerWebhookStatus::Failed)))
        }),
{
    lemma_count_called_le(ts);
    lemma_count_called_bounds(ts);
}

/// Observations compose into valid histories: when a mutation moves
/// statuses only along allowed edges, appending the new observation of
/// any one watcher to a valid observed history keeps it valid, so the
/// monotonicity and single-terminal laws of the state machine apply to
/// it.
pub proof fn lemma_step_extends_history(
    h: Seq<JobDoneWatcherStatus>,
    s1: Seq<WatcherModel>,
    s2: Seq<WatcherModel>,
    i: int,
)
    requires
        crate::models::status_history_ok(h),
        h.len() > 0,
        watcher_statuses_step(s1, s2),
        0 <= i < s1.len(),
        h.last() == s1[i].status,
    ensures
        crate::models::status_history_ok(h.push(s2[i].status)),
{
    let h2 = h.push(s2[i].status);
    assert forall|k: int|
        0 < k < h2.len() implies ((#[trigger] h2[k]) == h2[k - 1] || watcher_step(
        h2[k - 1],
        h2[k],
    )) by {
        if k < h.len() {
            assert(h2[k] == h[k]);
            assert(h2[k - 1] == h[k - 1]);
        } else {
            assert(h2[k] == s2[i].status);
            assert(h2[k - 1] == h[k - 1]);
            assert(h[k - 1] == h.last());
        }
    }
}

/// The timer race, seen from the timer's side: under the service
/// invariant, a watcher that the timer moved to `Timeout` was never
/// claimed, so none of its triggers was called and none carries an
/// attempt instant.
pub proof fn lemma_timeout_watcher_triggers_untouched(s: Seq<WatcherModel>, i: int)
    requires
        unclaimed_triggers_untouched(s),
        0 <= i < s.len(),
        s[i].status == JobDoneWatcherStatus::Timeout,
    ensures
        triggers_not_called(s[i]),
{
}

// ---------------------------------------------------------------------
// Creation
// ---------------------------------------------------------------------

/// Materializes the trigger records of a new watcher: fresh
/// identifiers, `NotCalled`, no attempt instant.
pub fn build_job_done_trigger_webhooks(
    requests: &Vec<CreateJobDoneTriggerWebhookRequest>,
) -> (r: Vec<JobDoneTriggerWebhook>)
    ensures
        r@.len() == requests@.len(),
        forall|i: int|
            0 <= i < r@.len() ==> {
                &&& (#[trigger] r@[i]).webhook_id == requests@[i].webhook_id
                &&& r@[i].timeout_seconds == requests@[i].timeout_seconds
                &&& r@[i].status == JobDoneTriggerWebhookStatus::NotCalled
                &&& r@[i].called_at is None
            },
{
    let mut out: Vec<JobDoneTriggerWebhook> = Vec::new();
    let n = requests.len();
    let mut i: usize = 0;
    while i < n
        invariant
            i <= n,
            n == requests@.len(),
            out@.len() == i,
            forall|k: int|
                0 <= k < i ==> {
                    &&& (#[trigger] out@[k]).webhook_id == requests@[k].webhook_id
                    &&& out@[k].timeout_seconds == requests@[k].timeout_seconds
                    &&& out@[k].status == JobDoneTriggerWebhookStatus::NotCalled
                    &&& out@[k].called_at is None
                },
        decreases n - i,
    {
        let request = requests[i];
        out.push(
            JobDoneTriggerWebhook::new(
                fresh_id(),
                request.webhook_id,
                request.timeout_seconds,
                JobDoneTriggerWebhookStatus::NotCalled,
                None,
            ),
        );
        i = i + 1;
    }
    out
}

/// The fields a freshly created watcher owes to its request.
pub open spec fn created_from_request(
    w: WatcherModel,
    request: crate::models::CreateWatcherRequestModel,
) -> bool {
    &&& w.job_name == request.job_name
    &&& w.timeout_seconds == request.timeout_seconds
    &&& w.status == JobDoneWatcherStatus::Pending
    &&& w.job_done_trigger_webhooks.len() == request.job_done_trigger_webhooks.len()
    &&& forall|j: int|
        0 <= j < w.job_done_trigger_webhooks.len() ==> {
            &&& (#[trigger] w.job_done_trigger_webhooks[j]).webhook_id
                == request.job_done_trigger_webhooks[j].webhook_id
            &&& w.job_done_trigger_webhooks[j].timeout_seconds
                == request.job_done_trigger_webhooks[j].timeout_seconds
            &&& w.job_done_trigger_webhooks[j].status == JobDoneTriggerWebhookStatus::NotCalled
            &&& w.job_done_trigger_webhooks[j].called_at is None
        }
}

/// Creates a watcher from a validated request: fresh identifiers for
/// the watcher and each trigger, status `Pending`, the current
/// instant, persisted atomically.  The caller schedules the deadline
/// timer when `timeout_seconds > 0`.  Creation fails only when the
/// generated identifier already exists.
pub fn create_job_done_watcher(
    job_done_watcher_repository: &mut InMemoryJobDoneWatcherRepository,
    create_job_done_watcher_request: CreateJobDoneWatcherRequest,
) -> (r: Result<JobDoneWatcher, StorageError>)
    ensures
        r matches Ok(w) ==> {
            &&& created_from_request(w@, create_job_done_watcher_request@)
            &&& !watchers_contain_id(old(job_done_watcher_repository)@, w@.id)
            &&& final(job_done_watcher_repository)@ == old(
                job_done_watcher_repository
            )@.push(w@)
        },
        r matches Err(e) ==> e == StorageError::DuplicateId && final(
            job_done_watcher_repository
        )@ == old(job_done_watcher_repository)@,
        watcher_ids_unique(old(job_done_watcher_repository)@) ==> watcher_ids_unique(
            final(job_done_watcher_repository)@,
        ),
        unclaimed_triggers_untouched(old(job_done_watcher_repository)@)
            ==> unclaimed_triggers_untouched(final(job_done_watcher_repository)@),
        old(job_done_watcher_repository)@.len() == 0 ==> r is Ok,
{
    let job_done_trigger_webhooks = build_job_done_trigger_webhooks(
        &create_job_done_watcher_request.job_done_trigger_webhooks,
    );
    let job_done_watcher = JobDoneWatcher::new(
        fresh_id(),
        create_job_done_watcher_request.job_name,
        create_job_done_watcher_request.timeout_seconds,
        job_done_trigger_webhooks,
        JobDoneWatcherStatus::Pending,
        now_millis(),
    );
    match job_done_watcher_repository.create_watcher(&job_done_watcher) {
        Ok(_) => Ok(job_done_watcher),
        Err(e) => Err(e),
    }
}

/// Idempotent creation: when the client supplied an
/// idempotency key, the cache still maps it, and the mapped watcher is
/// still retrievable, the existing watcher is returned with the replay
/// flag set and nothing is created; otherwise a new watcher is created
/// and, on success, the mapping is recorded.
pub fn create_job_done_watcher_idempotent(
    idempotency_map: &mut IdempotencyMap,
    job_done_watcher_repository: &mut InMemoryJobDoneWatcherRepository,
    create_job_done_watcher_request: CreateJobDoneWatcherRequest,
    idempotency_key: Option<u128>,
) -> (r: Result<(JobDoneWatcher, bool), StorageError>)
    ensures
        r matches Err(e) ==> e == StorageError::DuplicateId && final(
            job_done_watcher_repository
        )@ == old(job_done_watcher_repository)@,
        r matches Ok(p) ==> ({
            let c = idempotency_contents(*old(idempotency_map));
            let w = p.0;
            let replayed = p.1;
            &&& (replayed <==> (idempotency_key matches Some(k) && c.contains_key(k)
                && watchers_contain_id(old(job_done_watcher_repository)@, c[k])))
            &&& (replayed ==> final(job_done_watcher_repository)@ == old(
                job_done_watcher_repository
            )@ && (idempotency_key matches Some(k) && w@.id == c[k] && exists|i: int|
                0 <= i < old(job_done_watcher_repository)@.len() && #[trigger] old(
                    job_done_watcher_repository
                )@[i] == w@))
            &&& (!replayed ==> {
                &&& created_from_request(w@, create_job_done_watcher_request@)
                &&& final(job_done_watcher_repository)@ == old(
                    job_done_watcher_repository
                )@.push(w@)
                &&& (idempotency_key matches Some(k) ==> idempotency_contents(
                    *final(idempotency_map),
                ).submap_of(c.insert(k, w@.id)))
            })
        }),
        (idempotency_key matches Some(k) && idempotency_contents(
            *old(idempotency_map),
        ).contains_key(k) && watchers_contain_id(
            old(job_done_watcher_repository)@,
            idempotency_contents(*old(idempotency_map))[k],
        )) ==> r is Ok,
        old(job_done_watcher_repository)@.len() == 0 ==> r is Ok,
        r matches Err(_) ==> idempotency_contents(*final(idempotency_map)).submap_of(
            idempotency_contents(*old(idempotency_map)),
        ),
{
    if let Some(key) = idempotency_key {
        if let Some(resource_id) = idempotency_map.get_resource_id(key) {
            if let Some(existing) = job_done_watcher_repository.find_watcher_by_id(resource_id) {
                return Ok((existing, true));
            }
        }
    }
    match create_job_done_watcher(job_done_watcher_repository, create_job_done_watcher_request) {
        Ok(created) => {
            if let Some(key) = idempotency_key {
                let ghost mid = idempotency_contents(*idempotency_map);
                idempotency_map.insert(key, created.id);
                proof {
                    let c_old = idempotency_contents(*old(idempotency_map));
                    let fin = idempotency_contents(*idempotency_map);
                    assert forall|x: u128| #[trigger] fin.dom().contains(x) implies c_old.insert(
                        key,
                        created.id,
                    ).dom().contains(x) && c_old.insert(key, created.id)[x] == fin[x] by {
                        assert(mid.insert(key, created.id).dom().contains(x));
                        assert(mid.insert(key, created.id)[x] == fin[x]);
                        if x != key {
                            assert(mid.dom().contains(x));
                            assert(c_old.dom().contains(x));
                            assert(c_old[x] == mid[x]);
                        }
                    }
                    assert(fin.submap_of(c_old.insert(key, created.id)));
                }
            }
            Ok((created, false))
        },
        Err(e) => Err(e),
    }
}

/// Every stored watcher.
pub fn get_job_done_watchers(
    job_done_watcher_repository: &InMemoryJobDoneWatcherRepository,
) -> (r: Vec<JobDoneWatcher>)
    ensures
        r@.len() == job_done_watcher_repository@.len(),
        forall|i: int|
            0 <= i < r@.len() ==> (#[trigger] r@[i])@ == job_done_watcher_repository@[i],
{
    job_done_watcher_repository.find_all_watchers()
}

/// The stored watcher carrying `job_done_watcher_id`, if any.
pub fn get_job_done_watcher_by_id(
    job_done_watcher_repository: &InMemoryJobDoneWatcherRepository,
    job_done_watcher_id: u128,
) -> (r: Option<JobDoneWatcher>)
    ensures
        r matches Some(w) ==> w@.id == job_done_watcher_id && exists|i: int|
            0 <= i < job_done_watcher_repository@.len() && #[trigger] job_done_watcher_repository@[i]
                == w@,
        (r is Some) <==> watchers_contain_id(job_done_watcher_repository@, job_done_watcher_id),
{
    job_done_watcher_repository.find_watcher_by_id(job_done_watcher_id)
}

// ---------------------------------------------------------------------
// Deadline timer
// ---------------------------------------------------------------------

/// The deadline timer's action once the watcher's timeout elapses: a
/// compare-and-set from `Pending` to `Timeout`.  A watcher already
/// claimed into `Processing` — or already terminal — is left untouched,
/// so the timer always loses the race to a completed claim.
pub fn timeout_job_done_watcher(
    job_done_watcher_repository: &mut InMemoryJobDoneWatcherRepository,
    job_done_watcher_id: u128,
) -> (r: Result<(), StorageError>)
    ensures
        (r is Ok) <==> watchers_contain_id(old(job_done_watcher_repository)@, job_done_watcher_id),
        r matches Err(e) ==> e == StorageError::NotFound,
        final(job_done_watcher_repository)@.len() == old(job_done_watcher_repository)@.len(),
        forall|i: int|
            0 <= i < old(job_done_watcher_repository)@.len() ==> #[trigger] final(
                job_done_watcher_repository
            )@[i] == (if old(job_done_watcher_repository)@[i].id == job_done_watcher_id && old(
                job_done_watcher_repository
            )@[i].status == JobDoneWatcherStatus::Pending {
                watcher_with_status(
                    old(job_done_watcher_repository)@[i],
                    JobDoneWatcherStatus::Timeout,
                )
            } else {
                old(job_done_watcher_repository)@[i]
            }),
        watcher_statuses_step(old(job_done_watcher_repository)@, final(
            job_done_watcher_repository
        )@),
        unclaimed_triggers_untouched(old(job_done_watcher_repository)@)
            ==> unclaimed_triggers_untouched(final(job_done_watcher_repository)@),
{
    let r = job_done_watcher_repository.update_watcher_status_by_status(
        job_done_watcher_id,
        JobDoneWatcherStatus::Pending,
        JobDoneWatcherStatus::Timeout,
    );
    r
}

// ---------------------------------------------------------------------
// Claim and fan-out recording
// ---------------------------------------------------------------------

/// The atomic claim of `Notify`: flips every watcher bound to
/// `job_name` that is still `Pending` over to `Processing`, and
/// returns exactly the claimed watchers as post-transition snapshots.
/// Watchers already out of `Pending` (for example `Timeout` set by a
/// racing timer) are excluded by the predicate.
pub fn claim_job_done_watchers(
    job_done_watcher_repository: &mut InMemoryJobDoneWatcherRepository,
    job_name: &JobName,
) -> (r: Vec<JobDoneWatcher>)
    ensures
        final(job_done_watcher_repository)@.len() == old(job_done_watcher_repository)@.len(),
        forall|i: int|
            0 <= i < old(job_done_watcher_repository)@.len() ==> #[trigger] final(
                job_done_watcher_repository
            )@[i] == (if old(job_done_watcher_repository)@[i].job_name == job_name@ && old(
                job_done_watcher_repository
            )@[i].status == JobDoneWatcherStatus::Pending {
                watcher_with_status(
                    old(job_done_watcher_repository)@[i],
                    JobDoneWatcherStatus::Processing,
                )
            } else {
                old(job_done_watcher_repository)@[i]
            }),
        r@.map_values(|w: JobDoneWatcher| w@) == claimed_watchers(
            old(job_done_watcher_repository)@,
            job_name@,
            JobDoneWatcherStatus::Pending,
            JobDoneWatcherStatus::Processing,
        ),
        watcher_statuses_step(old(job_done_watcher_repository)@, final(
            job_done_watcher_repository
        )@),
        unclaimed_triggers_untouched(old(job_done_watcher_repository)@)
            ==> unclaimed_triggers_untouched(final(job_done_watcher_repository)@),
{
    let r = job_done_watcher_repository.update_watchers_status_by_job_name_and_status(
        job_name,
        JobDoneWatcherStatus::Pending,
        JobDoneWatcherStatus::Processing,
    );
    match r {
        Ok(v) => v,
        Err(_) => Vec::new(),
    }
}

/// Records one trigger call's classification — `Called` when the HTTP
/// attempt delivered, `Failed` otherwise — together with the attempt
/// instant, inside the claimed watcher.  Recording is refused when the
/// watcher is not currently `Processing`, so unclaimed watchers keep
/// untouched triggers.
pub fn record_job_done_trigger_webhook_outcome(
    job_done_watcher_repository: &mut InMemoryJobDoneWatcherRepository,
    job_done_watcher_id: u128,
    job_done_trigger_webhook_id: u128,
    delivered: bool,
    called_at: i64,
) -> (r: Result<(), StorageError>)
    ensures
        (r == Err::<(), StorageError>(StorageError::NotFound)) <==> !watchers_contain_id(
            old(job_done_watcher_repository)@,
            job_done_watcher_id,
        ),
        final(job_done_watcher_repository)@.len() == old(job_done_watcher_repository)@.len(),
        watcher_ids_unique(old(job_done_watcher_repository)@) ==> ((r is Ok) <==> exists|i: int|
            0 <= i < old(job_done_watcher_repository)@.len() && {
                let w = #[trigger] old(job_done_watcher_repository)@[i];
                w.id == job_done_watcher_id && w.status == JobDoneWatcherStatus::Processing
                    && triggers_contain_id(
                    w.job_done_trigger_webhooks,
                    job_done_trigger_webhook_id,
                )
            }),
        watcher_ids_unique(old(job_done_watcher_repository)@) ==> forall|i: int|
            0 <= i < old(job_done_watcher_repository)@.len() ==> #[trigger] final(
                job_done_watcher_repository
            )@[i] == (if old(job_done_watcher_repository)@[i].id == job_done_watcher_id && old(
                job_done_watcher_repository
            )@[i].status == JobDoneWatcherStatus::Processing {
                watcher_with_trigger_update(
                    old(job_done_watcher_repository)@[i],
                    job_done_trigger_webhook_id,
                    if delivered {
                        JobDoneTriggerWebhookStatus::Called
                    } else {
                        JobDoneTriggerWebhookStatus::Failed
                    },
                    called_at,
                )
            } else {
                old(job_done_watcher_repository)@[i]
            }),
        r matches Err(_) ==> final(job_done_watcher_repository)@ == old(
            job_done_watcher_repository
        )@,
        watcher_statuses_step(old(job_done_watcher_repository)@, final(
            job_done_watcher_repository
        )@),
        watcher_ids_unique(old(job_done_watcher_repository)@) ==> watcher_ids_unique(
            final(job_done_watcher_repository)@,
        ),
        (watcher_ids_unique(old(job_done_watcher_repository)@) && unclaimed_triggers_untouched(
            old(job_done_watcher_repository)@,
        )) ==> unclaimed_triggers_untouched(final(job_done_watcher_repository)@),
        watcher_ids_unique(old(job_done_watcher_repository)@) ==> ((r == Err::<(), StorageError>(
            StorageError::NotClaimed,
        )) <==> exists|i: int|
            0 <= i < old(job_done_watcher_repository)@.len() && (#[trigger] old(
                job_done_watcher_repository
            )@[i]).id == job_done_watcher_id && old(job_done_watcher_repository)@[i].status
            != JobDoneWatcherStatus::Processing),
        watcher_ids_unique(old(job_done_watcher_repository)@) ==> ((r == Err::<(), StorageError>(
            StorageError::TriggerNotFound,
        )) <==> exists|i: int|
            0 <= i < old(job_done_watcher_repository)@.len() && (#[trigger] old(
                job_done_watcher_repository
            )@[i]).id == job_done_watcher_id && old(job_done_watcher_repository)@[i].status
            == JobDoneWatcherStatus::Processing && !triggers_contain_id(
            old(job_done_watcher_repository)@[i].job_done_trigger_webhooks,
            job_done_trigger_webhook_id,
        )),
{
    let status = if delivered {
        JobDoneTriggerWebhookStatus::Called
    } else {
        JobDoneTriggerWebhookStatus::Failed
    };
    match job_done_watcher_repository.find_watcher_by_id(job_done_watcher_id) {
        None => Err(StorageError::NotFound),
        Some(w) => {
            proof {
                let wi = choose|i: int|
                    0 <= i < old(job_done_watcher_repository)@.len() && old(
                        job_done_watcher_repository
                    )@[i] == w@;
                if watcher_ids_unique(old(job_done_watcher_repository)@) {
                    assert forall|i: int|
                        0 <= i < old(job_done_watcher_repository)@.len() && (#[trigger] old(
                            job_done_watcher_repository
                        )@[i]).id == job_done_watcher_id implies old(
                        job_done_watcher_repository
                    )@[i] == w@ by {
                        if i != wi {
                            assert(old(job_done_watcher_repository)@[i].id != old(
                                job_done_watcher_repository
                            )@[wi].id);
                        }
                    }
                }
            }
            if !(w.status == JobDoneWatcherStatus::Processing) {
                return Err(StorageError::NotClaimed);
            }
            let r = job_done_watcher_repository.update_job_done_trigger_webhook_status_and_called_at(
                job_done_watcher_id,
                job_done_trigger_webhook_id,
                status,
                called_at,
            );
            proof {
                if r matches Err(_) {
                    assert forall|i: int|
                        0 <= i < old(job_done_watcher_repository)@.len() implies #[trigger]
                        job_done_watcher_repository@[i] == old(
                        job_done_watcher_repository
                    )@[i] by {
                        if old(job_done_watcher_repository)@[i].id == job_done_watcher_id {
                            let w0 = old(job_done_watcher_repository)@[i];
                            assert(!triggers_contain_id(
                                w0.job_done_trigger_webhooks,
                                job_done_trigger_webhook_id,
                            ));
                            assert(watcher_with_trigger_update(
                                w0,
                                job_done_trigger_webhook_id,
                                status,
                                called_at,
                            ).job_done_trigger_webhooks =~= w0.job_done_trigger_webhooks);
                            assert(watcher_with_trigger_update(
                                w0,
                                job_done_trigger_webhook_id,
                                status,
                                called_at,
                            ) =~= w0);
                        }
                    }
                    assert(job_done_watcher_repository@ =~= old(job_done_watcher_repository)@);
                }
            }
            r
        },
    }
}

/// The aggregate status of a watcher whose fan-out finished:
/// `Completed` when nothing failed, `Failed` when nothing succeeded,
/// `PartiallyCompleted` otherwise.
pub fn evaluate_job_done_watcher_status(
    total_webhooks: usize,
    success_count: usize,
    failure_count: usize,
) -> (r: JobDoneWatcherStatus)
    ensures
        r == spec_evaluate_job_done_watcher_status(success_count as int, failure_count as int),
{
    let _ = total_webhooks;
    if failure_count == 0 {
        JobDoneWatcherStatus::Completed
    } else if success_count == 0 {
        JobDoneWatcherStatus::Failed
    } else {
        JobDoneWatcherStatus::PartiallyCompleted
    }
}

/// Commits the aggregate status of a claimed watcher: counts its
/// recorded `Called` triggers, reduces to the aggregate, and stores
/// it.  Refused when the watcher is missing or not `Processing`.
pub fn complete_job_done_watcher(
    job_done_watcher_repository: &mut InMemoryJobDoneWatcherRepository,
    job_done_watcher_id: u128,
) -> (r: Result<JobDoneWatcherStatus, StorageError>)
    ensures
        (r == Err::<JobDoneWatcherStatus, StorageError>(StorageError::NotFound))
            <==> !watchers_contain_id(old(job_done_watcher_repository)@, job_done_watcher_id),
        r matches Err(_) ==> final(job_done_watcher_repository)@ == old(
            job_done_watcher_repository
        )@,
        r matches Ok(st) ==> (st == JobDoneWatcherStatus::Completed || st
            == JobDoneWatcherStatus::Failed || st == JobDoneWatcherStatus::PartiallyCompleted),
        r matches Ok(st) ==> exists|i: int|
            0 <= i < old(job_done_watcher_repository)@.len() && {
                let w = #[trigger] old(job_done_watcher_repository)@[i];
                &&& w.id == job_done_watcher_id
                &&& w.status == JobDoneWatcherStatus::Processing
                &&& st == spec_evaluate_job_done_watcher_status(
                    count_called(w.job_done_trigger_webhooks) as int,
                    w.job_done_trigger_webhooks.len() - count_called(
                        w.job_done_trigger_webhooks,
                    ),
                )
            },
        watcher_ids_unique(old(job_done_watcher_repository)@) ==> ((r is Ok) <==> exists|i: int|
            0 <= i < old(job_done_watcher_repository)@.len() && (#[trigger] old(
                job_done_watcher_repository
            )@[i]).id == job_done_watcher_id && old(job_done_watcher_repository)@[i].status
            == JobDoneWatcherStatus::Processing),
        r matches Ok(st) ==> final(job_done_watcher_repository)@.len() == old(
            job_done_watcher_repository
        )@.len() && forall|i: int|
            0 <= i < old(job_done_watcher_repository)@.len() ==> #[trigger] final(
                job_done_watcher_repository
            )@[i] == (if old(job_done_watcher_repository)@[i].id == job_done_watcher_id {
                watcher_with_status(old(job_done_watcher_repository)@[i], st)
            } else {
                old(job_done_watcher_repository)@[i]
            }),
        watcher_ids_unique(old(job_done_watcher_repository)@) ==> watcher_statuses_step(
            old(job_done_watcher_repository)@,
            final(job_done_watcher_repository)@,
        ),
        watcher_ids_unique(old(job_done_watcher_repository)@) ==> watcher_ids_unique(
            final(job_done_watcher_repository)@,
        ),
        (watcher_ids_unique(old(job_done_watcher_repository)@) && unclaimed_triggers_untouched(
            old(job_done_watcher_repository)@,
        )) ==> unclaimed_triggers_untouched(final(job_done_watcher_repository)@),
        watcher_ids_unique(old(job_done_watcher_repository)@) ==> ((r == Err::<
            JobDoneWatcherStatus,
            StorageError,
        >(StorageError::NotClaimed)) <==> exists|i: int|
            0 <= i < old(job_done_watcher_repository)@.len() && (#[trigger] old(
                job_done_watcher_repository
            )@[i]).id == job_done_watcher_id && old(job_done_watcher_repository)@[i].status
            != JobDoneWatcherStatus::Processing),
{
    let found = job_done_watcher_repository.find_watcher_by_id(job_done_watcher_id);
    match found {
        None => Err(StorageError::NotFound),
        Some(w) => {
            if !(w.status == JobDoneWatcherStatus::Processing) {
                return Err(StorageError::NotClaimed);
            }
            let total = w.job_done_trigger_webhooks.len();
            let mut success: usize = 0;
            let mut j: usize = 0;
            while j < total
                invariant
                    j <= total,
                    total == w.job_done_trigger_webhooks@.len(),
                    success == count_called(w.job_done_trigger_webhooks@.subrange(0, j as int)),
                    success <= j,
                decreases total - j,
            {
                proof {
                    assert(w.job_done_trigger_webhooks@.subrange(0, j + 1).drop_last()
                        =~= w.job_done_trigger_webhooks@.subrange(0, j as int));
                    assert(w.job_done_trigger_webhooks@.subrange(0, j + 1).last()
                        == w.job_done_trigger_webhooks@[j as int]);
                }
                if w.job_done_trigger_webhooks[j].status == JobDoneTriggerWebhookStatus::Called {
                    success = success + 1;
                }
                j = j + 1;
            }
            proof {
                assert(w.job_done_trigger_webhooks@.subrange(0, total as int)
                    =~= w.job_done_trigger_webhooks@);
            }
            let status = evaluate_job_done_watcher_status(total, success, total - success);
            match job_done_watcher_repository.update_watcher_status(job_done_watcher_id, status) {
                Ok(_) => Ok(status),
                Err(e) => Err(e),
            }
        },
    }
}


/// Runs the fan-out of one claimed watcher, given the transport result
/// of each trigger's HTTP attempt (in trigger order): looks up each
/// referenced webhook — a missing referent counts as failed — records
/// every outcome with the attempt instant, and commits the aggregate
/// status.  Called on a snapshot the claim returned, it always
/// succeeds; the committed state is exactly the fanned-out triggers
/// and their reduced aggregate.
pub fn call_job_done_trigger_webhooks(
    job_done_watcher_repository: &mut InMemoryJobDoneWatcherRepository,
    webhook_repository: &InMemoryWebhookRepository,
    job_done_watcher: &JobDoneWatcher,
    transport_delivered: &Vec<bool>,
    now: i64,
) -> (r: Result<JobDoneWatcherStatus, StorageError>)
    requires
        transport_delivered@.len() == job_done_watcher@.job_done_trigger_webhooks.len(),
        trigger_ids_unique(job_done_watcher@.job_done_trigger_webhooks),
        watcher_ids_unique(old(job_done_watcher_repository)@),
        exists|i: int|
            0 <= i < old(job_done_watcher_repository)@.len() && #[trigger] old(
                job_done_watcher_repository
            )@[i] == job_done_watcher@,
        job_done_watcher@.status == JobDoneWatcherStatus::Processing,
    ensures
        r is Ok,
        r matches Ok(st) ==> st == fanned_out_status(
            webhook_repository@,
            job_done_watcher@.job_done_trigger_webhooks,
            transport_delivered@,
            now,
        ),
        r matches Ok(st) ==> (st == JobDoneWatcherStatus::Completed || st
            == JobDoneWatcherStatus::Failed || st == JobDoneWatcherStatus::PartiallyCompleted),
        r matches Ok(st) ==> ({
            let fts = fanned_out_triggers(
                webhook_repository@,
                job_done_watcher@.job_done_trigger_webhooks,
                transport_delivered@,
                now,
            );
            &&& (st == JobDoneWatcherStatus::Completed ==> forall|q: int|
                0 <= q < fts.len() ==> (#[trigger] fts[q]).status
                    == JobDoneTriggerWebhookStatus::Called)
            &&& (st == JobDoneWatcherStatus::Failed ==> forall|q: int|
                0 <= q < fts.len() ==> (#[trigger] fts[q]).status
                    == JobDoneTriggerWebhookStatus::Failed)
            &&& (st == JobDoneWatcherStatus::PartiallyCompleted ==> ((exists|q: int|
                0 <= q < fts.len() && (#[trigger] fts[q]).status
                    == JobDoneTriggerWebhookStatus::Called) && (exists|q: int|
                0 <= q < fts.len() && (#[trigger] fts[q]).status
                    == JobDoneTriggerWebhookStatus::Failed)))
        }),
        final(job_done_watcher_repository)@.len() == old(job_done_watcher_repository)@.len(),
        r matches Ok(st) ==> forall|k: int|
            0 <= k < old(job_done_watcher_repository)@.len() ==> #[trigger] final(
                job_done_watcher_repository
            )@[k] == (if old(job_done_watcher_repository)@[k].id == job_done_watcher@.id {
                WatcherModel {
                    status: st,
                    job_done_trigger_webhooks: fanned_out_triggers(
                        webhook_repository@,
                        job_done_watcher@.job_done_trigger_webhooks,
                        transport_delivered@,
                        now,
                    ),
                    ..old(job_done_watcher_repository)@[k]
                }
            } else {
                old(job_done_watcher_repository)@[k]
            }),
        watcher_statuses_step(old(job_done_watcher_repository)@, final(
            job_done_watcher_repository
        )@),
        watcher_ids_unique(final(job_done_watcher_repository)@),
        unclaimed_triggers_untouched(old(job_done_watcher_repository)@)
            ==> unclaimed_triggers_untouched(final(job_done_watcher_repository)@),
{
    let watcher_id = job_done_watcher.id;
    let total = job_done_watcher.job_done_trigger_webhooks.len();
    let ghost webhooks0 = webhook_repository@;
    let ghost ts0 = job_done_watcher@.job_done_trigger_webhooks;
    proof {
        assert forall|k: int|
            0 <= k < old(job_done_watcher_repository)@.len() && (#[trigger] old(
                job_done_watcher_repository
            )@[k]).id == job_done_watcher@.id implies old(job_done_watcher_repository)@[k]
            == job_done_watcher@ by {
            let wi = choose|i: int|
                0 <= i < old(job_done_watcher_repository)@.len() && old(
                    job_done_watcher_repository
                )@[i] == job_done_watcher@;
            if k != wi {
                assert(old(job_done_watcher_repository)@[k].id != old(
                    job_done_watcher_repository
                )@[wi].id);
            }
        }
    }
    let mut j: usize = 0;
    while j < total
        invariant
            j <= total,
            total == ts0.len(),
            total == transport_delivered@.len(),
            webhooks0 == webhook_repository@,
            ts0 == job_done_watcher@.job_done_trigger_webhooks,
            trigger_ids_unique(ts0),
            watcher_id == job_done_watcher@.id,
            job_done_watcher@.status == JobDoneWatcherStatus::Processing,
            job_done_watcher_repository@.len() == old(job_done_watcher_repository)@.len(),
            watcher_ids_unique(old(job_done_watcher_repository)@),
            exists|i: int|
                0 <= i < old(job_done_watcher_repository)@.len() && #[trigger] old(
                    job_done_watcher_repository
                )@[i] == job_done_watcher@,
            forall|k: int|
                0 <= k < old(job_done_watcher_repository)@.len() && (#[trigger] old(
                    job_done_watcher_repository
                )@[k]).id == job_done_watcher@.id ==> old(job_done_watcher_repository)@[k]
                == job_done_watcher@,
            forall|k: int|
                0 <= k < old(job_done_watcher_repository)@.len() && (#[trigger] old(
                    job_done_watcher_repository
                )@[k]).id != job_done_watcher@.id ==> job_done_watcher_repository@[k] == old(
                    job_done_watcher_repository
                )@[k],
            forall|k: int|
                0 <= k < old(job_done_watcher_repository)@.len() && (#[trigger] old(
                    job_done_watcher_repository
                )@[k]).id == job_done_watcher@.id ==> {
                    let w1 = job_done_watcher_repository@[k];
                    &&& w1.id == watcher_id
                    &&& w1.status == JobDoneWatcherStatus::Processing
                    &&& w1.job_name == job_done_watcher@.job_name
                    &&& w1.timeout_seconds == job_done_watcher@.timeout_seconds
                    &&& w1.created_at == job_done_watcher@.created_at
                    &&& w1.job_done_trigger_webhooks.len() == total
                    &&& forall|q: int|
                        0 <= q < total ==> #[trigger] w1.job_done_trigger_webhooks[q] == (
                        if q < j {
                            fanned_out_trigger(webhooks0, ts0[q], transport_delivered@[q], now)
                        } else {
                            ts0[q]
                        })
                },
            unclaimed_triggers_untouched(old(job_done_watcher_repository)@)
                ==> unclaimed_triggers_untouched(job_done_watcher_repository@),
        decreases total - j,
    {
        let trigger = job_done_watcher.job_done_trigger_webhooks[j];
        let delivered = match webhook_repository.find_webhook_by_id(trigger.webhook_id) {
            Some(_) => transport_delivered[j],
            None => false,
        };
        proof {
            assert(delivered == (transport_delivered@[j as int] && webhooks_contain_id(
                webhooks0,
                ts0[j as int].webhook_id,
            )));
            assert forall|a: int, b: int|
                0 <= a < b < job_done_watcher_repository@.len() implies (
            #[trigger] job_done_watcher_repository@[a]).id != (
            #[trigger] job_done_watcher_repository@[b]).id by {
                let oa = old(job_done_watcher_repository)@[a];
                let ob = old(job_done_watcher_repository)@[b];
                assert(oa.id != ob.id);
                if oa.id == job_done_watcher@.id {
                    assert(job_done_watcher_repository@[a].id == watcher_id);
                } else {
                    assert(job_done_watcher_repository@[a] == oa);
                }
                if ob.id == job_done_watcher@.id {
                    assert(job_done_watcher_repository@[b].id == watcher_id);
                } else {
                    assert(job_done_watcher_repository@[b] == ob);
                }
            }
            assert(watcher_ids_unique(job_done_watcher_repository@));
            let wi = choose|i: int|
                0 <= i < old(job_done_watcher_repository)@.len() && old(
                    job_done_watcher_repository
                )@[i] == job_done_watcher@;
            assert(job_done_watcher_repository@[wi].id == watcher_id);
            assert(job_done_watcher_repository@[wi].status == JobDoneWatcherStatus::Processing);
            assert(job_done_watcher_repository@[wi].job_done_trigger_webhooks[j as int]
                == ts0[j as int]);
            assert(triggers_contain_id(
                job_done_watcher_repository@[wi].job_done_trigger_webhooks,
                trigger.id,
            ));
        }
        let ghost pre = job_done_watcher_repository@;
        let recorded = record_job_done_trigger_webhook_outcome(
            job_done_watcher_repository,
            watcher_id,
            trigger.id,
            delivered,
            now,
        );
        proof {
            assert(recorded is Ok);
            let status = if delivered {
                JobDoneTriggerWebhookStatus::Called
            } else {
                JobDoneTriggerWebhookStatus::Failed
            };
            assert forall|k: int|
                0 <= k < old(job_done_watcher_repository)@.len() && (#[trigger] old(
                    job_done_watcher_repository
                )@[k]).id == job_done_watcher@.id implies {
                let w1 = job_done_watcher_repository@[k];
                &&& w1.id == watcher_id
                &&& w1.status == JobDoneWatcherStatus::Processing
                &&& w1.job_name == job_done_watcher@.job_name
                &&& w1.timeout_seconds == job_done_watcher@.timeout_seconds
                &&& w1.created_at == job_done_watcher@.created_at
                &&& w1.job_done_trigger_webhooks.len() == total
                &&& forall|q: int|
                    0 <= q < total ==> #[trigger] w1.job_done_trigger_webhooks[q] == (
                    if q < j + 1 {
                        fanned_out_trigger(webhooks0, ts0[q], transport_delivered@[q], now)
                    } else {
                        ts0[q]
                    })
            } by {
                let wp = pre[k];
                let w1 = job_done_watcher_repository@[k];
                assert(w1 == watcher_with_trigger_update(wp, trigger.id, status, now));
                assert forall|q: int|
                    0 <= q < total implies #[trigger] w1.job_done_trigger_webhooks[q] == (
                    if q < j + 1 {
                        fanned_out_trigger(webhooks0, ts0[q], transport_delivered@[q], now)
                    } else {
                        ts0[q]
                    }) by {
                    assert(wp.job_done_trigger_webhooks[q] == (if q < j {
                        fanned_out_trigger(webhooks0, ts0[q], transport_delivered@[q], now)
                    } else {
                        ts0[q]
                    }));
                    if q != j as int {
                        assert(ts0[q].id != ts0[j as int].id);
                        assert(wp.job_done_trigger_webhooks[q].id != trigger.id);
                    } else {
                        assert(wp.job_done_trigger_webhooks[q].id == trigger.id);
                        assert(w1.job_done_trigger_webhooks[q] == trigger_with(
                            ts0[j as int],
                            status,
                            now,
                        ));
                    }
                }
            }
        }
        match recorded {
            Ok(_) => {},
            Err(e) => {
                return Err(e);
            },
        }
        j = j + 1;
    }
    proof {
        assert forall|a: int, b: int|
            0 <= a < b < job_done_watcher_repository@.len() implies (
        #[trigger] job_done_watcher_repository@[a]).id != (
        #[trigger] job_done_watcher_repository@[b]).id by {
            let oa = old(job_done_watcher_repository)@[a];
            let ob = old(job_done_watcher_repository)@[b];
            assert(oa.id != ob.id);
            if oa.id == job_done_watcher@.id {
                assert(job_done_watcher_repository@[a].id == watcher_id);
            } else {
                assert(job_done_watcher_repository@[a] == oa);
            }
            if ob.id == job_done_watcher@.id {
                assert(job_done_watcher_repository@[b].id == watcher_id);
            } else {
                assert(job_done_watcher_repository@[b] == ob);
            }
        }
        assert(watcher_ids_unique(job_done_watcher_repository@));
        let wi = choose|i: int|
            0 <= i < old(job_done_watcher_repository)@.len() && old(
                job_done_watcher_repository
            )@[i] == job_done_watcher@;
        assert(job_done_watcher_repository@[wi].id == watcher_id);
        assert(job_done_watcher_repository@[wi].status == JobDoneWatcherStatus::Processing);
        assert(job_done_watcher_repository@[wi].job_done_trigger_webhooks =~= fanned_out_triggers(
            webhooks0,
            ts0,
            transport_delivered@,
            now,
        ));
    }
    let ghost mid = job_done_watcher_repository@;
    let ghost fts = fanned_out_triggers(webhooks0, ts0, transport_delivered@, now);
    let completed = complete_job_done_watcher(job_done_watcher_repository, watcher_id);
    proof {
        assert(completed is Ok);
        if let Ok(st) = completed {
            let aggregate = fanned_out_status(webhooks0, ts0, transport_delivered@, now);
            let wi = choose|i: int|
                0 <= i < mid.len() && (#[trigger] mid[i]).id == watcher_id && mid[i].status
                    == JobDoneWatcherStatus::Processing && st
                    == spec_evaluate_job_done_watcher_status(
                    count_called(mid[i].job_done_trigger_webhooks) as int,
                    mid[i].job_done_trigger_webhooks.len() - count_called(
                        mid[i].job_done_trigger_webhooks,
                    ),
                );
            assert(mid[wi].job_done_trigger_webhooks == fts);
            assert(st == aggregate);
            assert forall|q: int|
                0 <= q < fts.len() implies ((#[trigger] fts[q]).status
                == JobDoneTriggerWebhookStatus::Called || fts[q].status
                == JobDoneTriggerWebhookStatus::Failed) by {}
            lemma_aggregate_status_correct(fts);
            assert forall|k: int|
                0 <= k < old(job_done_watcher_repository)@.len() implies #[trigger]
            job_done_watcher_repository@[k] == (if old(job_done_watcher_repository)@[k].id
                == job_done_watcher@.id {
                WatcherModel {
                    status: st,
                    job_done_trigger_webhooks: fts,
                    ..old(job_done_watcher_repository)@[k]
                }
            } else {
                old(job_done_watcher_repository)@[k]
            }) by {
                let w0 = old(job_done_watcher_repository)@[k];
                if w0.id == job_done_watcher@.id {
                    assert(mid[k].id == watcher_id);
                    assert(job_done_watcher_repository@[k] == watcher_with_status(mid[k], st));
                    assert(job_done_watcher_repository@[k] =~= WatcherModel {
                        status: st,
                        job_done_trigger_webhooks: fts,
                        ..w0
                    });
                } else {
                    assert(mid[k] == w0);
                    assert(job_done_watcher_repository@[k] == w0);
                }
            }
            assert(watcher_statuses_step(mid, job_done_watcher_repository@));
            assert(watcher_statuses_step(
                old(job_done_watcher_repository)@,
                job_done_watcher_repository@,
            ));
        }
    }
    completed
}

} // verus!
