//! In-memory repositories with exact functional contracts.  Each
//! repository's view is the sequence of stored records, in insertion
//! order; the operations state precisely how the view changes and when
//! each error is returned.  Any backing store that honors these
//! contracts can replace them behind the same interface.

use vstd::prelude::*;
use crate::job_name::JobName;
use crate::models::{
    JobDoneTriggerWebhook, JobDoneTriggerWebhookStatus, JobDoneWatcher, JobDoneWatcherStatus,
    FamilyWatcherModel, JobFamilyWatcher, WatcherModel, Webhook, WebhookModel,
};
use crate::strutil::str_eq;

verus! {

/// The ways a repository operation fails.
#[derive(Clone, Copy, Debug, PartialEq, Eq, Structural)]
pub enum StorageError {
    DuplicateId,
    NotFound,
    TriggerNotFound,
    NotClaimed,
}

// ---------------------------------------------------------------------
// Webhook repository
// ---------------------------------------------------------------------

/// True when some stored webhook carries `id`.
pub open spec fn webhooks_contain_id(s: Seq<WebhookModel>, id: u128) -> bool {
    exists|i: int| 0 <= i < s.len() && (#[trigger] s[i]).id == id
}

/// Stored webhook identifiers are pairwise distinct.
pub open spec fn webhook_ids_unique(s: Seq<WebhookModel>) -> bool {
    forall|i: int, j: int| 0 <= i < j < s.len() ==> (#[trigger] s[i]).id != (#[trigger] s[j]).id
}

/// Stores webhooks in insertion order.
pub struct InMemoryWebhookRepository {
    webhooks: Vec<Webhook>,
}

impl View for InMemoryWebhookRepository {
    type V = Seq<WebhookModel>;

    closed spec fn view(&self) -> Seq<WebhookModel> {
        self.webhooks@.map_values(|w: Webhook| w@)
    }
}

impl InMemoryWebhookRepository {
    /// An empty store.
    pub fn new() -> (r: InMemoryWebhookRepository)
        ensures
            r@ == Seq::<WebhookModel>::empty(),
    {
        let r = InMemoryWebhookRepository { webhooks: Vec::new() };
        proof {
            assert(r@ =~= Seq::<WebhookModel>::empty());
        }
        r
    }

    /// Copies of every stored webhook, in insertion order.
    pub fn find_all_webhooks(&self) -> (r: Vec<Webhook>)
        ensures
            r@.len() == self@.len(),
            forall|i: int| 0 <= i < r@.len() ==> (#[trigger] r@[i])@ == self@[i],
    {
        let mut out: Vec<Webhook> = Vec::new();
        let n = self.webhooks.len();
        let mut i: usize = 0;
        while i < n
            invariant
                i <= n,
                n == self.webhooks@.len(),
                out@.len() == i,
                forall|k: int| 0 <= k < i ==> (#[trigger] out@[k])@ == self@[k],
            decreases n - i,
        {
            out.push(self.webhooks[i].clone());
            i = i + 1;
        }
        out
    }

    /// The stored webhook carrying `id`, if any.
    pub fn find_webhook_by_id(&self, id: u128) -> (r: Option<Webhook>)
        ensures
            r matches Some(w) ==> w@.id == id && exists|i: int|
                0 <= i < self@.len() && #[trigger] self@[i] == w@,
            (r is Some) <==> webhooks_contain_id(self@, id),
    {
        let n = self.webhooks.len();
        let mut i: usize = 0;
        while i < n
            invariant
                i <= n,
                n == self.webhooks@.len(),
                forall|k: int| 0 <= k < i ==> (#[trigger] self@[k]).id != id,
            decreases n - i,
        {
            if self.webhooks[i].id == id {
                let w = self.webhooks[i].clone();
                proof {
                    assert(self@[i as int] == w@);
                }
                return Some(w);
            }
            i = i + 1;
        }
        None
    }

    /// Inserts `webhook`; a record with the same identifier is refused.
    pub fn create_webhook(&mut self, webhook: &Webhook) -> (r: Result<(), StorageError>)
        ensures
            (r is Ok) <==> !webhooks_contain_id(old(self)@, webhook@.id),
            r matches Ok(_) ==> final(self)@ == old(self)@.push(webhook@),
            r matches Err(e) ==> e == StorageError::DuplicateId && final(self)@ == old(self)@,
            webhook_ids_unique(old(self)@) ==> webhook_ids_unique(final(self)@),
    {
        let n = self.webhooks.len();
        let mut i: usize = 0;
        while i < n
            invariant
                i <= n,
                n == self.webhooks@.len(),
                self@ == old(self)@,
                self.webhooks@ == old(self).webhooks@,
                forall|k: int| 0 <= k < i ==> (#[trigger] self@[k]).id != webhook@.id,
            decreases n - i,
        {
            if self.webhooks[i].id == webhook.id {
                proof {
                    assert((#[trigger] self@[i as int]).id == webhook@.id);
                }
                return Err(StorageError::DuplicateId);
            }
            i = i + 1;
        }
        self.webhooks.push(webhook.clone());
        proof {
            assert(self@ =~= old(self)@.push(webhook@));
        }
        Ok(())
    }
}


// ---------------------------------------------------------------------
// Watcher repository
// ---------------------------------------------------------------------

/// True when some stored watcher carries `id`.
pub open spec fn watchers_contain_id(s: Seq<WatcherModel>, id: u128) -> bool {
    exists|i: int| 0 <= i < s.len() && (#[trigger] s[i]).id == id
}

/// Stored watcher identifiers are pairwise distinct.
pub open spec fn watcher_ids_unique(s: Seq<WatcherModel>) -> bool {
    forall|i: int, j: int| 0 <= i < j < s.len() ==> (#[trigger] s[i]).id != (#[trigger] s[j]).id
}

/// The same watcher with its status replaced.
pub open spec fn watcher_with_status(w: WatcherModel, status: JobDoneWatcherStatus) -> WatcherModel {
    WatcherModel { status, ..w }
}

/// The atomic claim predicate: the watcher is bound to `name` and
/// currently carries `expected`.
pub open spec fn claim_matches(
    w: WatcherModel,
    name: Seq<char>,
    expected: JobDoneWatcherStatus,
) -> bool {
    w.job_name == name && w.status == expected
}

/// The stored watchers bound to `name` with status `expected`, in
/// insertion order.
pub open spec fn watchers_matching(
    s: Seq<WatcherModel>,
    name: Seq<char>,
    expected: JobDoneWatcherStatus,
) -> Seq<WatcherModel>
    decreases s.len(),
{
    if s.len() == 0 {
        Seq::empty()
    } else {
        let rest = watchers_matching(s.drop_last(), name, expected);
        if claim_matches(s.last(), name, expected) {
            rest.push(s.last())
        } else {
            rest
        }
    }
}

/// The post-transition snapshots the claim operation returns: every
/// matching watcher, already flipped to `to`.
pub open spec fn claimed_watchers(
    s: Seq<WatcherModel>,
    name: Seq<char>,
    expected: JobDoneWatcherStatus,
    to: JobDoneWatcherStatus,
) -> Seq<WatcherModel> {
    watchers_matching(s, name, expected).map_values(|w: WatcherModel| watcher_with_status(w, to))
}

/// True when some trigger of the sequence carries `id`.
pub open spec fn triggers_contain_id(ts: Seq<JobDoneTriggerWebhook>, id: u128) -> bool {
    exists|j: int| 0 <= j < ts.len() && (#[trigger] ts[j]).id == id
}

/// The same trigger with its status and attempt instant replaced.
pub open spec fn trigger_with(
    t: JobDoneTriggerWebhook,
    status: JobDoneTriggerWebhookStatus,
    called_at: i64,
) -> JobDoneTriggerWebhook {
    JobDoneTriggerWebhook { status, called_at: Some(called_at), ..t }
}

/// The same watcher with every trigger carrying `trigger_id` updated to
/// `status` and `called_at`.
pub open spec fn watcher_with_trigger_update(
    w: WatcherModel,
    trigger_id: u128,
    status: JobDoneTriggerWebhookStatus,
    called_at: i64,
) -> WatcherModel {
    WatcherModel {
        job_done_trigger_webhooks: Seq::new(
            w.job_done_trigger_webhooks.len(),
            |j: int|
                if w.job_done_trigger_webhooks[j].id == trigger_id {
                    trigger_with(w.job_done_trigger_webhooks[j], status, called_at)
                } else {
                    w.job_done_trigger_webhooks[j]
                },
        ),
        ..w
    }
}

/// Stores single-shot watchers in insertion order.
pub struct InMemoryJobDoneWatcherRepository {
    watchers: Vec<JobDoneWatcher>,
}

impl View for InMemoryJobDoneWatcherRepository {
    type V = Seq<WatcherModel>;

    closed spec fn view(&self) -> Seq<WatcherModel> {
        self.watchers@.map_values(|w: JobDoneWatcher| w@)
    }
}

impl InMemoryJobDoneWatcherRepository {
    /// An empty store.
    pub fn new() -> (r: InMemoryJobDoneWatcherRepository)
        ensures
            r@ == Seq::<WatcherModel>::empty(),
    {
        let r = InMemoryJobDoneWatcherRepository { watchers: Vec::new() };
        proof {
            assert(r@ =~= Seq::<WatcherModel>::empty());
        }
        r
    }

    /// Copies of every stored watcher, in insertion order.
    pub fn find_all_watchers(&self) -> (r: Vec<JobDoneWatcher>)
        ensures
            r@.len() == self@.len(),
            forall|i: int| 0 <= i < r@.len() ==> (#[trigger] r@[i])@ == self@[i],
    {
        let mut out: Vec<JobDoneWatcher> = Vec::new();
        let n = self.watchers.len();
        let mut i: usize = 0;
        while i < n
            invariant
                i <= n,
                n == self.watchers@.len(),
                out@.len() == i,
                forall|k: int| 0 <= k < i ==> (#[trigger] out@[k])@ == self@[k],
            decreases n - i,
        {
            out.push(self.watchers[i].clone());
            i = i + 1;
        }
        out
    }

    /// Copies of the stored watchers bound to `job_name` with status
    /// `status`, in insertion order.
    pub fn find_all_watchers_by_job_name_and_status(
        &self,
        job_name: &JobName,
        status: JobDoneWatcherStatus,
    ) -> (r: Vec<JobDoneWatcher>)
        ensures
            r@.map_values(|w: JobDoneWatcher| w@) == watchers_matching(self@, job_name@, status),
    {
        let mut out: Vec<JobDoneWatcher> = Vec::new();
        let n = self.watchers.len();
        let mut i: usize = 0;
        while i < n
            invariant
                i <= n,
                n == self.watchers@.len(),
                out@.map_values(|w: JobDoneWatcher| w@) == watchers_matching(
                    self@.subrange(0, i as int),
                    job_name@,
                    status,
                ),
            decreases n - i,
        {
            proof {
                assert(self@.subrange(0, i + 1).drop_last() =~= self@.subrange(0, i as int));
                assert(self@.subrange(0, i + 1).last() == self@[i as int]);
            }
            if str_eq(self.watchers[i].job_name.as_str(), job_name.as_str())
                && self.watchers[i].status == status {
                out.push(self.watchers[i].clone());
                proof {
                    assert(out@.map_values(|w: JobDoneWatcher| w@) =~= watchers_matching(
                        self@.subrange(0, i + 1),
                        job_name@,
                        status,
                    ));
                }
            } else {
                proof {
                    assert(!claim_matches(self@[i as int], job_name@, status));
                    assert(out@.map_values(|w: JobDoneWatcher| w@) =~= watchers_matching(
                        self@.subrange(0, i + 1),
                        job_name@,
                        status,
                    ));
                }
            }
            i = i + 1;
        }
        proof {
            assert(self@.subrange(0, n as int) =~= self@);
        }
        out
    }

    /// The stored watcher carrying `id`, if any.
    pub fn find_watcher_by_id(&self, id: u128) -> (r: Option<JobDoneWatcher>)
        ensures
            r matches Some(w) ==> w@.id == id && exists|i: int|
                0 <= i < self@.len() && #[trigger] self@[i] == w@,
            (r is Some) <==> watchers_contain_id(self@, id),
    {
        let n = self.watchers.len();
        let mut i: usize = 0;
        while i < n
            invariant
                i <= n,
                n == self.watchers@.len(),
                forall|k: int| 0 <= k < i ==> (#[trigger] self@[k]).id != id,
            decreases n - i,
        {
            if self.watchers[i].id == id {
                let w = self.watchers[i].clone();
                proof {
                    assert(self@[i as int] == w@);
                }
                return Some(w);
            }
            i = i + 1;
        }
        None
    }

    /// Inserts `job_done_watcher` with all of its triggers as one unit;
    /// a record with the same identifier is refused.
    pub fn create_watcher(&mut self, job_done_watcher: &JobDoneWatcher) -> (r: Result<
        (),
        StorageError,
    >)
        ensures
            (r is Ok) <==> !watchers_contain_id(old(self)@, job_done_watcher@.id),
            r matches Ok(_) ==> final(self)@ == old(self)@.push(job_done_watcher@),
            r matches Err(e) ==> e == StorageError::DuplicateId && final(self)@ == old(self)@,
            watcher_ids_unique(old(self)@) ==> watcher_ids_unique(final(self)@),
    {
        let n = self.watchers.len();
        let mut i: usize = 0;
        while i < n
            invariant
                i <= n,
                n == self.watchers@.len(),
                self@ == old(self)@,
                self.watchers@ == old(self).watchers@,
                forall|k: int| 0 <= k < i ==> (#[trigger] self@[k]).id != job_done_watcher@.id,
            decreases n - i,
        {
            if self.watchers[i].id == job_done_watcher.id {
                proof {
                    assert((#[trigger] self@[i as int]).id == job_done_watcher@.id);
                }
                return Err(StorageError::DuplicateId);
            }
            i = i + 1;
        }
        self.watchers.push(job_done_watcher.clone());
        proof {
            assert(self@ =~= old(self)@.push(job_done_watcher@));
        }
        Ok(())
    }

    /// Unconditionally replaces the status of the watcher carrying
    /// `id`.
    pub fn update_watcher_status(&mut self, id: u128, new_status: JobDoneWatcherStatus) -> (r:
        Result<(), StorageError>)
        ensures
            (r is Ok) <==> watchers_contain_id(old(self)@, id),
            r matches Err(e) ==> e == StorageError::NotFound,
            final(self)@.len() == old(self)@.len(),
            forall|i: int|
                0 <= i < old(self)@.len() ==> #[trigger] final(self)@[i] == (
                if old(self)@[i].id == id {
                    watcher_with_status(old(self)@[i], new_status)
                } else {
                    old(self)@[i]
                }),
    {
        let n = self.watchers.len();
        let mut found = false;
        let mut i: usize = 0;
        while i < n
            invariant
                i <= n,
                n == self.watchers@.len(),
                self.watchers@.len() == old(self).watchers@.len(),
                found <==> exists|k: int|
                    0 <= k < i && (#[trigger] old(self).watchers@[k])@.id == id,
                forall|k: int|
                    0 <= k < i ==> (#[trigger] self.watchers@[k])@ == (
                    if (old(self).watchers@[k])@.id == id {
                        watcher_with_status((old(self).watchers@[k])@, new_status)
                    } else {
                        (old(self).watchers@[k])@
                    }),
                forall|k: int|
                    i <= k < n ==> (#[trigger] self.watchers@[k])@ == (old(self).watchers@[k])@,
            decreases n - i,
        {
            proof {
                assert((self.watchers@[i as int])@ == (old(self).watchers@[i as int])@);
            }
            if self.watchers[i].id == id {
                let mut w = self.watchers[i].clone();
                w.status = new_status;
                self.watchers[i] = w;
                found = true;
                proof {
                    assert((self.watchers@[i as int])@ =~= watcher_with_status(
                        (old(self).watchers@[i as int])@,
                        new_status,
                    ));
                }
            }
            i = i + 1;
        }
        proof {
            assert forall|k: int|
                0 <= k < old(self).watchers@.len() implies (#[trigger] old(
                self,
            ).watchers@[k])@ == old(self)@[k] by {
                assert(old(self)@[k] == (old(self).watchers@[k])@);
            }
            assert forall|k: int|
                0 <= k < self.watchers@.len() implies (#[trigger] self.watchers@[k])@
                == self@[k] by {
                assert(self@[k] == (self.watchers@[k])@);
            }
        }
        if found {
            Ok(())
        } else {
            Err(StorageError::NotFound)
        }
    }

    /// Compare-and-set: replaces the status of the watcher carrying
    /// `id` only when its current status equals `status`.
    pub fn update_watcher_status_by_status(
        &mut self,
        id: u128,
        status: JobDoneWatcherStatus,
        new_status: JobDoneWatcherStatus,
    ) -> (r: Result<(), StorageError>)
        ensures
            (r is Ok) <==> watchers_contain_id(old(self)@, id),
            r matches Err(e) ==> e == StorageError::NotFound,
            final(self)@.len() == old(self)@.len(),
            forall|i: int|
                0 <= i < old(self)@.len() ==> #[trigger] final(self)@[i] == (
                if old(self)@[i].id == id && old(self)@[i].status == status {
                    watcher_with_status(old(self)@[i], new_status)
                } else {
                    old(self)@[i]
                }),
    {
        let n = self.watchers.len();
        let mut found = false;
        let mut i: usize = 0;
        while i < n
            invariant
                i <= n,
                n == self.watchers@.len(),
                self.watchers@.len() == old(self).watchers@.len(),
                found <==> exists|k: int|
                    0 <= k < i && (#[trigger] old(self).watchers@[k])@.id == id,
                forall|k: int|
                    0 <= k < i ==> (#[trigger] self.watchers@[k])@ == (
                    if (old(self).watchers@[k])@.id == id && (old(self).watchers@[k])@.status
                        == status {
                        watcher_with_status((old(self).watchers@[k])@, new_status)
                    } else {
                        (old(self).watchers@[k])@
                    }),
                forall|k: int|
                    i <= k < n ==> (#[trigger] self.watchers@[k])@ == (old(self).watchers@[k])@,
            decreases n - i,
        {
            proof {
                assert((self.watchers@[i as int])@ == (old(self).watchers@[i as int])@);
            }
            if self.watchers[i].id == id {
                if self.watchers[i].status == status {
                    let mut w = self.watchers[i].clone();
                    w.status = new_status;
                    self.watchers[i] = w;
                    proof {
                        assert((self.watchers@[i as int])@ =~= watcher_with_status(
                            (old(self).watchers@[i as int])@,
                            new_status,
                        ));
                    }
                }
                found = true;
            }
            i = i + 1;
        }
        proof {
            assert forall|k: int|
                0 <= k < old(self).watchers@.len() implies (#[trigger] old(
                self,
            ).watchers@[k])@ == old(self)@[k] by {
                assert(old(self)@[k] == (old(self).watchers@[k])@);
            }
            assert forall|k: int|
                0 <= k < self.watchers@.len() implies (#[trigger] self.watchers@[k])@
                == self@[k] by {
                assert(self@[k] == (self.watchers@[k])@);
            }
        }
        if found {
            Ok(())
        } else {
            Err(StorageError::NotFound)
        }
    }

    /// The atomic claim: flips every watcher bound to `job_name` whose
    /// status is `status` over to `new_status`, and returns exactly the
    /// post-transition snapshots of the flipped watchers, in insertion
    /// order.
    pub fn update_watchers_status_by_job_name_and_status(
        &mut self,
        job_name: &JobName,
        status: JobDoneWatcherStatus,
        new_status: JobDoneWatcherStatus,
    ) -> (r: Result<Vec<JobDoneWatcher>, StorageError>)
        ensures
            r is Ok,
            final(self)@.len() == old(self)@.len(),
            forall|i: int|
                0 <= i < old(self)@.len() ==> #[trigger] final(self)@[i] == (
                if claim_matches(old(self)@[i], job_name@, status) {
                    watcher_with_status(old(self)@[i], new_status)
                } else {
                    old(self)@[i]
                }),
            r matches Ok(v) ==> v@.map_values(|w: JobDoneWatcher| w@) == claimed_watchers(
                old(self)@,
                job_name@,
                status,
                new_status,
            ),
    {
        let mut out: Vec<JobDoneWatcher> = Vec::new();
        let n = self.watchers.len();
        let mut i: usize = 0;
        while i < n
            invariant
                i <= n,
                n == self.watchers@.len(),
                self.watchers@.len() == old(self).watchers@.len(),
                old(self)@.len() == old(self).watchers@.len(),
                forall|k: int|
                    0 <= k < old(self)@.len() ==> #[trigger] old(self)@[k] == (old(
                        self,
                    ).watchers@[k])@,
                forall|k: int|
                    0 <= k < i ==> (#[trigger] self.watchers@[k])@ == (
                    if claim_matches((old(self).watchers@[k])@, job_name@, status) {
                        watcher_with_status((old(self).watchers@[k])@, new_status)
                    } else {
                        (old(self).watchers@[k])@
                    }),
                forall|k: int|
                    i <= k < n ==> (#[trigger] self.watchers@[k])@ == (old(self).watchers@[k])@,
                out@.map_values(|w: JobDoneWatcher| w@) == claimed_watchers(
                    old(self)@.subrange(0, i as int),
                    job_name@,
                    status,
                    new_status,
                ),
            decreases n - i,
        {
            proof {
                assert((self.watchers@[i as int])@ == (old(self).watchers@[i as int])@);
                assert(old(self)@[i as int] == (old(self).watchers@[i as int])@);
                assert(old(self)@.subrange(0, i + 1).drop_last() =~= old(self)@.subrange(
                    0,
                    i as int,
                ));
                assert(old(self)@.subrange(0, i + 1).last() == old(self)@[i as int]);
            }
            if str_eq(self.watchers[i].job_name.as_str(), job_name.as_str())
                && self.watchers[i].status == status {
                let mut w = self.watchers[i].clone();
                w.status = new_status;
                self.watchers[i] = w;
                let snapshot = self.watchers[i].clone();
                let ghost out0 = out@;
                out.push(snapshot);
                proof {
                    assert((self.watchers@[i as int])@ =~= watcher_with_status(
                        old(self)@[i as int],
                        new_status,
                    ));
                    assert(snapshot@ == watcher_with_status(old(self)@[i as int], new_status));
                    assert(claim_matches(old(self)@[i as int], job_name@, status));
                    assert(out@ == out0.push(snapshot));
                    assert(out@.map_values(|w: JobDoneWatcher| w@) =~= out0.map_values(
                        |w: JobDoneWatcher| w@,
                    ).push(snapshot@));
                    assert(claimed_watchers(
                        old(self)@.subrange(0, i + 1),
                        job_name@,
                        status,
                        new_status,
                    ) =~= claimed_watchers(
                        old(self)@.subrange(0, i as int),
                        job_name@,
                        status,
                        new_status,
                    ).push(watcher_with_status(old(self)@[i as int], new_status)));
                    assert(out@.map_values(|w: JobDoneWatcher| w@) == claimed_watchers(
                        old(self)@.subrange(0, i + 1),
                        job_name@,
                        status,
                        new_status,
                    ));
                }
            } else {
                proof {
                    assert(!claim_matches(old(self)@[i as int], job_name@, status));
                    assert(claimed_watchers(
                        old(self)@.subrange(0, i + 1),
                        job_name@,
                        status,
                        new_status,
                    ) =~= claimed_watchers(
                        old(self)@.subrange(0, i as int),
                        job_name@,
                        status,
                        new_status,
                    ));
                }
            }
            i = i + 1;
        }
        proof {
            assert(old(self)@.subrange(0, n as int) =~= old(self)@);
            assert forall|k: int|
                0 <= k < self.watchers@.len() implies (#[trigger] self.watchers@[k])@
                == self@[k] by {
                assert(self@[k] == (self.watchers@[k])@);
            }
        }
        Ok(out)
    }

    /// Records the outcome of one trigger call: sets the trigger's
    /// status and attempt instant inside the watcher carrying `id`.
    pub fn update_job_done_trigger_webhook_status_and_called_at(
        &mut self,
        id: u128,
        job_done_trigger_webhook_id: u128,
        job_done_trigger_webhook_status: JobDoneTriggerWebhookStatus,
        job_done_trigger_webhook_called_at: i64,
    ) -> (r: Result<(), StorageError>)
        ensures
            final(self)@.len() == old(self)@.len(),
            forall|i: int|
                0 <= i < old(self)@.len() ==> #[trigger] final(self)@[i] == (
                if old(self)@[i].id == id {
                    watcher_with_trigger_update(
                        old(self)@[i],
                        job_done_trigger_webhook_id,
                        job_done_trigger_webhook_status,
                        job_done_trigger_webhook_called_at,
                    )
                } else {
                    old(self)@[i]
                }),
            (r is Ok) <==> exists|i: int|
                0 <= i < old(self)@.len() && (#[trigger] old(self)@[i]).id == id
                    && triggers_contain_id(
                    old(self)@[i].job_done_trigger_webhooks,
                    job_done_trigger_webhook_id,
                ),
            r == Err::<(), StorageError>(StorageError::NotFound) <==> !watchers_contain_id(
                old(self)@,
                id,
            ),
            r == Err::<(), StorageError>(StorageError::TriggerNotFound) <==> (watchers_contain_id(
                old(self)@,
                id,
            ) && !exists|i: int|
                0 <= i < old(self)@.len() && (#[trigger] old(self)@[i]).id == id
                    && triggers_contain_id(
                    old(self)@[i].job_done_trigger_webhooks,
                    job_done_trigger_webhook_id,
                )),
    {
        let n = self.watchers.len();
        let mut watcher_found = false;
        let mut trigger_found = false;
        let mut i: usize = 0;
        while i < n
            invariant
                i <= n,
                n == self.watchers@.len(),
                self.watchers@.len() == old(self).watchers@.len(),
                old(self)@.len() == old(self).watchers@.len(),
                forall|k: int|
                    0 <= k < old(self)@.len() ==> #[trigger] old(self)@[k] == (old(
                        self,
                    ).watchers@[k])@,
                watcher_found <==> exists|k: int|
                    0 <= k < i && (#[trigger] old(self).watchers@[k])@.id == id,
                trigger_found <==> exists|k: int|
                    0 <= k < i && (#[trigger] old(self).watchers@[k])@.id == id
                        && triggers_contain_id(
                        (old(self).watchers@[k])@.job_done_trigger_webhooks,
                        job_done_trigger_webhook_id,
                    ),
                forall|k: int|
                    0 <= k < i ==> (#[trigger] self.watchers@[k])@ == (
                    if (old(self).watchers@[k])@.id == id {
                        watcher_with_trigger_update(
                            (old(self).watchers@[k])@,
                            job_done_trigger_webhook_id,
                            job_done_trigger_webhook_status,
                            job_done_trigger_webhook_called_at,
                        )
                    } else {
                        (old(self).watchers@[k])@
                    }),
                forall|k: int|
                    i <= k < n ==> (#[trigger] self.watchers@[k])@ == (old(self).watchers@[k])@,
            decreases n - i,
        {
            proof {
                assert((self.watchers@[i as int])@ == (old(self).watchers@[i as int])@);
            }
            if self.watchers[i].id == id {
                watcher_found = true;
                let mut w = self.watchers[i].clone();
                let ghost w0 = w@;
                let tn = w.job_done_trigger_webhooks.len();
                let mut any = false;
                let mut j: usize = 0;
                while j < tn
                    invariant
                        j <= tn,
                        tn == w.job_done_trigger_webhooks@.len(),
                        w0.job_done_trigger_webhooks.len() == tn,
                        w.id == w0.id,
                        w.job_name@ == w0.job_name,
                        w.timeout_seconds == w0.timeout_seconds,
                        w.status == w0.status,
                        w.created_at == w0.created_at,
                        any <==> exists|q: int|
                            0 <= q < j && (#[trigger] w0.job_done_trigger_webhooks[q]).id
                                == job_done_trigger_webhook_id,
                        forall|q: int|
                            0 <= q < j ==> #[trigger] w.job_done_trigger_webhooks@[q] == (
                            if w0.job_done_trigger_webhooks[q].id == job_done_trigger_webhook_id {
                                trigger_with(
                                    w0.job_done_trigger_webhooks[q],
                                    job_done_trigger_webhook_status,
                                    job_done_trigger_webhook_called_at,
                                )
                            } else {
                                w0.job_done_trigger_webhooks[q]
                            }),
                        forall|q: int|
                            j <= q < tn ==> #[trigger] w.job_done_trigger_webhooks@[q]
                                == w0.job_done_trigger_webhooks[q],
                    decreases tn - j,
                {
                    if w.job_done_trigger_webhooks[j].id == job_done_trigger_webhook_id {
                        let mut t = w.job_done_trigger_webhooks[j];
                        t.status = job_done_trigger_webhook_status;
                        t.called_at = Some(job_done_trigger_webhook_called_at);
                        w.job_done_trigger_webhooks[j] = t;
                        any = true;
                    }
                    j = j + 1;
                }
                if any {
                    trigger_found = true;
                }
                self.watchers[i] = w;
                proof {
                    assert(w0 == (old(self).watchers@[i as int])@);
                    assert((self.watchers@[i as int])@ =~= watcher_with_trigger_update(
                        (old(self).watchers@[i as int])@,
                        job_done_trigger_webhook_id,
                        job_done_trigger_webhook_status,
                        job_done_trigger_webhook_called_at,
                    ));
                }
            }
            i = i + 1;
        }
        proof {
            assert forall|k: int|
                0 <= k < self.watchers@.len() implies (#[trigger] self.watchers@[k])@
                == self@[k] by {
                assert(self@[k] == (self.watchers@[k])@);
            }
            assert forall|k: int|
                0 <= k < old(self).watchers@.len() implies (#[trigger] old(
                self,
            ).watchers@[k])@ == old(self)@[k] by {
                assert(old(self)@[k] == (old(self).watchers@[k])@);
            }
        }
        if trigger_found {
            Ok(())
        } else if watcher_found {
            Err(StorageError::TriggerNotFound)
        } else {
            Err(StorageError::NotFound)
        }
    }
}


// ---------------------------------------------------------------------
// Family watcher repository
// ---------------------------------------------------------------------

/// The stored family watchers bound to `family`, in insertion order.
pub open spec fn family_watchers_matching(
    s: Seq<FamilyWatcherModel>,
    family: Seq<char>,
) -> Seq<FamilyWatcherModel>
    decreases s.len(),
{
    if s.len() == 0 {
        Seq::empty()
    } else {
        let rest = family_watchers_matching(s.drop_last(), family);
        if s.last().job_family == family {
            rest.push(s.last())
        } else {
            rest
        }
    }
}

/// Stores family watchers in insertion order.
pub struct InMemoryJobFamilyWatcherRepository {
    watchers: Vec<JobFamilyWatcher>,
}

impl View for InMemoryJobFamilyWatcherRepository {
    type V = Seq<FamilyWatcherModel>;

    closed spec fn view(&self) -> Seq<FamilyWatcherModel> {
        self.watchers@.map_values(|w: JobFamilyWatcher| w@)
    }
}

impl InMemoryJobFamilyWatcherRepository {
    /// An empty store.
    pub fn new() -> (r: InMemoryJobFamilyWatcherRepository)
        ensures
            r@ == Seq::<FamilyWatcherModel>::empty(),
    {
        let r = InMemoryJobFamilyWatcherRepository { watchers: Vec::new() };
        proof {
            assert(r@ =~= Seq::<FamilyWatcherModel>::empty());
        }
        r
    }

    /// Appends `job_family_watcher`; family watchers carry no client
    /// identifier, so several may share a family.
    pub fn create_job_family_watcher(&mut self, job_family_watcher: JobFamilyWatcher) -> (r: Result<
        (),
        StorageError,
    >)
        ensures
            r is Ok,
            final(self)@ == old(self)@.push(job_family_watcher@),
    {
        let ghost pushed = job_family_watcher@;
        self.watchers.push(job_family_watcher);
        proof {
            assert(self@ =~= old(self)@.push(pushed));
        }
        Ok(())
    }

    /// Copies of the stored family watchers bound to `job_family`, in
    /// insertion order.
    pub fn find_all_job_family_watchers_by_job_family(&self, job_family: &str) -> (r: Vec<
        JobFamilyWatcher,
    >)
        ensures
            r@.map_values(|w: JobFamilyWatcher| w@) == family_watchers_matching(self@, job_family@),
    {
        let mut out: Vec<JobFamilyWatcher> = Vec::new();
        let n = self.watchers.len();
        let mut i: usize = 0;
        while i < n
            invariant
                i <= n,
                n == self.watchers@.len(),
                self@.len() == n,
                forall|k: int|
                    0 <= k < n ==> #[trigger] self@[k] == (self.watchers@[k])@,
                out@.map_values(|w: JobFamilyWatcher| w@) == family_watchers_matching(
                    self@.subrange(0, i as int),
                    job_family@,
                ),
            decreases n - i,
        {
            proof {
                assert(self@.subrange(0, i + 1).drop_last() =~= self@.subrange(0, i as int));
                assert(self@.subrange(0, i + 1).last() == self@[i as int]);
            }
            if str_eq(self.watchers[i].job_family.as_str(), job_family) {
                let ghost out0 = out@;
                let w = self.watchers[i].clone();
                out.push(w);
                proof {
                    assert(out@ == out0.push(w));
                    assert(w@ == self@[i as int]);
                    assert(out@.map_values(|x: JobFamilyWatcher| x@) =~= out0.map_values(
                        |x: JobFamilyWatcher| x@,
                    ).push(w@));
                    assert(family_watchers_matching(self@.subrange(0, i + 1), job_family@)
                        =~= family_watchers_matching(
                        self@.subrange(0, i as int),
                        job_family@,
                    ).push(self@[i as int]));
                }
            } else {
                proof {
                    assert(self@[i as int].job_family != job_family@);
                    assert(family_watchers_matching(self@.subrange(0, i + 1), job_family@)
                        =~= family_watchers_matching(self@.subrange(0, i as int), job_family@));
                }
            }
            i = i + 1;
        }
        proof {
            assert(self@.subrange(0, n as int) =~= self@);
        }
        out
    }
}


// ---------------------------------------------------------------------
// Round-trip laws
// ---------------------------------------------------------------------

/// Create-then-get: a webhook stored under a fresh identifier is the
/// only record carrying that identifier, so reading it back by
/// identifier yields the record unchanged.
pub proof fn lemma_webhook_create_then_get(s: Seq<WebhookModel>, w: WebhookModel)
    requires
        !webhooks_contain_id(s, w.id),
    ensures
        webhooks_contain_id(s.push(w), w.id),
        forall|i: int|
            0 <= i < s.push(w).len() && (#[trigger] s.push(w)[i]).id == w.id ==> s.push(w)[i]
                == w,
{
    assert(s.push(w)[s.len() as int] == w);
}

/// Stored-then-read: a family watcher appended to the store appears at
/// the end of the matching set for its own family, with the same
/// record.
pub proof fn lemma_family_watcher_stored_then_read(s: Seq<FamilyWatcherModel>, w: FamilyWatcherModel)
    ensures
        family_watchers_matching(s.push(w), w.job_family) == family_watchers_matching(
            s,
            w.job_family,
        ).push(w),
{
    assert(s.push(w).drop_last() =~= s);
    assert(s.push(w).last() == w);
}

} // verus!
