//! Core entities: webhooks, single-shot watchers with their trigger
//! webhooks, family watchers, and the watcher status state machine.
//!
//! A watcher moves along
//! `Pending -> Processing -> {Completed | PartiallyCompleted | Failed}`,
//! or `Pending -> Timeout` when its deadline timer wins the race.
//! Terminal statuses have no outgoing edge.

use vstd::prelude::*;
use crate::http_url::{HttpUrl, HttpUrlError};
use crate::job_name::{JobName, JobNameError};
use crate::strutil::str_eq;

verus! {

// ---------------------------------------------------------------------
// Statuses and the watcher state machine
// ---------------------------------------------------------------------

/// Status of one trigger webhook of a watcher.
#[derive(Clone, Copy, Debug, PartialEq, Eq, Structural)]
pub enum JobDoneTriggerWebhookStatus {
    Called,
    NotCalled,
    Failed,
    Timeout,
    Cancelled,
}

/// Status of a single-shot watcher.
#[derive(Clone, Copy, Debug, PartialEq, Eq, Structural)]
pub enum JobDoneWatcherStatus {
    Completed,
    PartiallyCompleted,
    Pending,
    Processing,
    Cancelled,
    Failed,
    Timeout,
}

impl JobDoneWatcherStatus {
    /// Terminal statuses are retained forever; only `Pending` and
    /// `Processing` can still move.
    pub open spec fn spec_is_terminal(self) -> bool {
        self != JobDoneWatcherStatus::Pending && self != JobDoneWatcherStatus::Processing
    }

    /// Whether this status is terminal.
    pub fn is_terminal(&self) -> (r: bool)
        ensures
            r == self.spec_is_terminal(),
    {
        match self {
            JobDoneWatcherStatus::Pending => false,
            JobDoneWatcherStatus::Processing => false,
            _ => true,
        }
    }

    /// The text a storage backend records for this status.
    pub open spec fn spec_storage_str(self) -> Seq<char> {
        match self {
            JobDoneWatcherStatus::Completed => "Completed"@,
            JobDoneWatcherStatus::PartiallyCompleted => "PartiallyCompleted"@,
            JobDoneWatcherStatus::Pending => "Pending"@,
            JobDoneWatcherStatus::Processing => "Processing"@,
            JobDoneWatcherStatus::Cancelled => "Cancelled"@,
            JobDoneWatcherStatus::Failed => "Failed"@,
            JobDoneWatcherStatus::Timeout => "Timeout"@,
        }
    }

    /// The storage text of this status.
    pub fn as_storage_str(&self) -> (r: &'static str)
        ensures
            r@ == self.spec_storage_str(),
    {
        match self {
            JobDoneWatcherStatus::Completed => "Completed",
            JobDoneWatcherStatus::PartiallyCompleted => "PartiallyCompleted",
            JobDoneWatcherStatus::Pending => "Pending",
            JobDoneWatcherStatus::Processing => "Processing",
            JobDoneWatcherStatus::Cancelled => "Cancelled",
            JobDoneWatcherStatus::Failed => "Failed",
            JobDoneWatcherStatus::Timeout => "Timeout",
        }
    }

    /// The status a storage text denotes, if any.
    pub open spec fn spec_parse_storage_str(s: Seq<char>) -> Option<JobDoneWatcherStatus> {
        if s == "Completed"@ {
            Some(JobDoneWatcherStatus::Completed)
        } else if s == "PartiallyCompleted"@ {
            Some(JobDoneWatcherStatus::PartiallyCompleted)
        } else if s == "Pending"@ {
            Some(JobDoneWatcherStatus::Pending)
        } else if s == "Processing"@ {
            Some(JobDoneWatcherStatus::Processing)
        } else if s == "Cancelled"@ {
            Some(JobDoneWatcherStatus::Cancelled)
        } else if s == "Failed"@ {
            Some(JobDoneWatcherStatus::Failed)
        } else if s == "Timeout"@ {
            Some(JobDoneWatcherStatus::Timeout)
        } else {
            None
        }
    }

    /// Parses a storage text back into a status.
    pub fn parse_storage_str(s: &str) -> (r: Option<JobDoneWatcherStatus>)
        ensures
            r == Self::spec_parse_storage_str(s@),
    {
        if str_eq(s, "Completed") {
            Some(JobDoneWatcherStatus::Completed)
        } else if str_eq(s, "PartiallyCompleted") {
            Some(JobDoneWatcherStatus::PartiallyCompleted)
        } else if str_eq(s, "Pending") {
            Some(JobDoneWatcherStatus::Pending)
        } else if str_eq(s, "Processing") {
            Some(JobDoneWatcherStatus::Processing)
        } else if str_eq(s, "Cancelled") {
            Some(JobDoneWatcherStatus::Cancelled)
        } else if str_eq(s, "Failed") {
            Some(JobDoneWatcherStatus::Failed)
        } else if str_eq(s, "Timeout") {
            Some(JobDoneWatcherStatus::Timeout)
        } else {
            None
        }
    }

    /// Writing a status to storage and reading it back yields the same
    /// status.
    pub proof fn lemma_storage_str_round_trip(self)
        ensures
            Self::spec_parse_storage_str(self.spec_storage_str()) == Some(self),
    {
        reveal_strlit("Completed");
        reveal_strlit("PartiallyCompleted");
        reveal_strlit("Pending");
        reveal_strlit("Processing");
        reveal_strlit("Cancelled");
        reveal_strlit("Failed");
        reveal_strlit("Timeout");
        assert("Completed"@.len() == 9);
        assert("PartiallyCompleted"@.len() == 18);
        assert("Pending"@.len() == 7);
        assert("Processing"@.len() == 10);
        assert("Cancelled"@.len() == 9);
        assert("Failed"@.len() == 6);
        assert("Timeout"@.len() == 7);
        assert("Completed"@[1] == 'o');
        assert("Cancelled"@[1] == 'a');
        assert("Pending"@[0] == 'P');
        assert("Timeout"@[0] == 'T');
    }
}

impl JobDoneTriggerWebhookStatus {
    /// The text a storage backend records for this status.
    pub open spec fn spec_storage_str(self) -> Seq<char> {
        match self {
            JobDoneTriggerWebhookStatus::Called => "Called"@,
            JobDoneTriggerWebhookStatus::NotCalled => "NotCalled"@,
            JobDoneTriggerWebhookStatus::Failed => "Failed"@,
            JobDoneTriggerWebhookStatus::Timeout => "Timeout"@,
            JobDoneTriggerWebhookStatus::Cancelled => "Cancelled"@,
        }
    }

    /// The storage text of this status.
    pub fn as_storage_str(&self) -> (r: &'static str)
        ensures
            r@ == self.spec_storage_str(),
    {
        match self {
            JobDoneTriggerWebhookStatus::Called => "Called",
            JobDoneTriggerWebhookStatus::NotCalled => "NotCalled",
            JobDoneTriggerWebhookStatus::Failed => "Failed",
            JobDoneTriggerWebhookStatus::Timeout => "Timeout",
            JobDoneTriggerWebhookStatus::Cancelled => "Cancelled",
        }
    }

    /// The status a storage text denotes, if any.
    pub open spec fn spec_parse_storage_str(s: Seq<char>) -> Option<JobDoneTriggerWebhookStatus> {
        if s == "Called"@ {
            Some(JobDoneTriggerWebhookStatus::Called)
        } else if s == "NotCalled"@ {
            Some(JobDoneTriggerWebhookStatus::NotCalled)
        } else if s == "Failed"@ {
            Some(JobDoneTriggerWebhookStatus::Failed)
        } else if s == "Timeout"@ {
            Some(JobDoneTriggerWebhookStatus::Timeout)
        } else if s == "Cancelled"@ {
            Some(JobDoneTriggerWebhookStatus::Cancelled)
        } else {
            None
        }
    }

    /// Parses a storage text back into a status.
    pub fn parse_storage_str(s: &str) -> (r: Option<JobDoneTriggerWebhookStatus>)
        ensures
            r == Self::spec_parse_storage_str(s@),
    {
        if str_eq(s, "Called") {
            Some(JobDoneTriggerWebhookStatus::Called)
        } else if str_eq(s, "NotCalled") {
            Some(JobDoneTriggerWebhookStatus::NotCalled)
        } else if str_eq(s, "Failed") {
            Some(JobDoneTriggerWebhookStatus::Failed)
        } else if str_eq(s, "Timeout") {
            Some(JobDoneTriggerWebhookStatus::Timeout)
        } else if str_eq(s, "Cancelled") {
            Some(JobDoneTriggerWebhookStatus::Cancelled)
        } else {
            None
        }
    }

    /// Writing a status to storage and reading it back yields the same
    /// status.
    pub proof fn lemma_storage_str_round_trip(self)
        ensures
            Self::spec_parse_storage_str(self.spec_storage_str()) == Some(self),
    {
        reveal_strlit("Called");
        reveal_strlit("NotCalled");
        reveal_strlit("Failed");
        reveal_strlit("Timeout");
        reveal_strlit("Cancelled");
        assert("Called"@.len() == 6);
        assert("NotCalled"@.len() == 9);
        assert("Failed"@.len() == 6);
        assert("Timeout"@.len() == 7);
        assert("Cancelled"@.len() == 9);
        assert("Called"@[0] == 'C');
        assert("Failed"@[0] == 'F');
        assert("NotCalled"@[0] == 'N');
        assert("Cancelled"@[0] == 'C');
    }
}

/// The allowed edges of the watcher state machine.
pub open spec fn watcher_step(
    from: JobDoneWatcherStatus,
    to: JobDoneWatcherStatus,
) -> bool {
    ||| (from == JobDoneWatcherStatus::Pending && to == JobDoneWatcherStatus::Processing)
    ||| (from == JobDoneWatcherStatus::Pending && to == JobDoneWatcherStatus::Timeout)
    ||| (from == JobDoneWatcherStatus::Processing && (to == JobDoneWatcherStatus::Completed
        || to == JobDoneWatcherStatus::Failed
        || to == JobDoneWatcherStatus::PartiallyCompleted))
}

/// A status history where each observation either repeats the previous
/// one or follows an allowed edge.
pub open spec fn status_history_ok(h: Seq<JobDoneWatcherStatus>) -> bool {
    forall|i: int|
        0 < i < h.len() ==> ((#[trigger] h[i]) == h[i - 1] || watcher_step(h[i - 1], h[i]))
}

/// No edge leaves a terminal status.
pub proof fn lemma_terminal_no_step(from: JobDoneWatcherStatus, to: JobDoneWatcherStatus)
    ensures
        from.spec_is_terminal() ==> !watcher_step(from, to),
{
}

proof fn lemma_terminal_stays(h: Seq<JobDoneWatcherStatus>, i: int, j: int)
    requires
        status_history_ok(h),
        0 <= i <= j < h.len(),
        h[i].spec_is_terminal(),
    ensures
        h[j] == h[i],
    decreases j - i,
{
    if j > i {
        lemma_terminal_stays(h, i, j - 1);
    }
}

/// Monotonicity: along an observed history that moves only on allowed
/// edges, once a terminal status appears every later observation equals
/// it; the history is a prefix of one path of the state machine.
pub proof fn lemma_status_history_monotonic(h: Seq<JobDoneWatcherStatus>)
    requires
        status_history_ok(h),
    ensures
        forall|i: int, j: int|
            0 <= i <= j < h.len() && (#[trigger] h[i]).spec_is_terminal() ==> #[trigger] h[j]
                == h[i],
{
    assert forall|i: int, j: int|
        0 <= i <= j < h.len() && (#[trigger] h[i]).spec_is_terminal() implies #[trigger] h[j]
        == h[i] by {
        lemma_terminal_stays(h, i, j);
    }
}

/// Single terminal transition: after a history steps into a terminal
/// status, no further observation changes.
pub proof fn lemma_single_terminal_transition(h: Seq<JobDoneWatcherStatus>)
    requires
        status_history_ok(h),
    ensures
        forall|i: int, j: int|
            0 <= i && i < j && j + 1 < h.len() && h[i] != h[i + 1] && (#[trigger] h[i
                + 1]).spec_is_terminal() ==> h[j] == #[trigger] h[j + 1],
{
    assert forall|i: int, j: int|
        0 <= i && i < j && j + 1 < h.len() && h[i] != h[i + 1] && (#[trigger] h[i
            + 1]).spec_is_terminal() implies h[j] == #[trigger] h[j + 1] by {
        lemma_terminal_stays(h, i + 1, j);
        lemma_terminal_stays(h, i + 1, j + 1);
    }
}

// ---------------------------------------------------------------------
// Entities
// ---------------------------------------------------------------------

/// One trigger webhook of a watcher: a reference to a webhook, a
/// per-call timeout, and the record of its invocation.
#[derive(Clone, Copy, Debug)]
pub struct JobDoneTriggerWebhook {
    pub id: u128,
    pub webhook_id: u128,
    pub timeout_seconds: u32,
    pub status: JobDoneTriggerWebhookStatus,
    pub called_at: Option<i64>,
}

impl JobDoneTriggerWebhook {
    /// Builds a trigger record.
    pub fn new(
        id: u128,
        webhook_id: u128,
        timeout_seconds: u32,
        status: JobDoneTriggerWebhookStatus,
        called_at: Option<i64>,
    ) -> (r: JobDoneTriggerWebhook)
        ensures
            r == (JobDoneTriggerWebhook { id, webhook_id, timeout_seconds, status, called_at }),
    {
        JobDoneTriggerWebhook { id, webhook_id, timeout_seconds, status, called_at }
    }

    /// Records the instant of the HTTP attempt.
    pub fn set_called_at(&mut self, date_time: i64)
        ensures
            *final(self) == (JobDoneTriggerWebhook { called_at: Some(date_time), ..*old(self) }),
    {
        self.called_at = Some(date_time);
    }

    /// Replaces the status.
    pub fn set_status(&mut self, status: JobDoneTriggerWebhookStatus)
        ensures
            *final(self) == (JobDoneTriggerWebhook { status, ..*old(self) }),
    {
        self.status = status;
    }
}

/// The mathematical shape of a watcher.
#[verifier::ext_equal]
pub struct WatcherModel {
    pub id: u128,
    pub job_name: Seq<char>,
    pub timeout_seconds: u32,
    pub status: JobDoneWatcherStatus,
    pub created_at: i64,
    pub job_done_trigger_webhooks: Seq<JobDoneTriggerWebhook>,
}

/// A single-shot watcher bound to one workload name.
#[derive(Debug)]
pub struct JobDoneWatcher {
    pub id: u128,
    pub job_name: JobName,
    pub timeout_seconds: u32,
    pub status: JobDoneWatcherStatus,
    pub created_at: i64,
    pub job_done_trigger_webhooks: Vec<JobDoneTriggerWebhook>,
}

impl Clone for JobDoneWatcher {
    /// The copy has the same model.
    fn clone(&self) -> (r: Self)
        ensures
            r@ == self@,
    {
        let triggers = self.job_done_trigger_webhooks.clone();
        proof {
            assert(triggers@ =~= self.job_done_trigger_webhooks@);
        }
        let r = JobDoneWatcher {
            id: self.id,
            job_name: self.job_name.clone(),
            timeout_seconds: self.timeout_seconds,
            status: self.status,
            created_at: self.created_at,
            job_done_trigger_webhooks: triggers,
        };
        proof {
            assert(r@ =~= self@);
        }
        r
    }
}

impl View for JobDoneWatcher {
    type V = WatcherModel;

    open spec fn view(&self) -> WatcherModel {
        WatcherModel {
            id: self.id,
            job_name: self.job_name@,
            timeout_seconds: self.timeout_seconds,
            status: self.status,
            created_at: self.created_at,
            job_done_trigger_webhooks: self.job_done_trigger_webhooks@,
        }
    }
}

impl JobDoneWatcher {
    /// Builds a watcher.
    pub fn new(
        id: u128,
        job_name: JobName,
        timeout_seconds: u32,
        job_done_trigger_webhooks: Vec<JobDoneTriggerWebhook>,
        status: JobDoneWatcherStatus,
        created_at: i64,
    ) -> (r: JobDoneWatcher)
        ensures
            r@ == (WatcherModel {
                id,
                job_name: job_name@,
                timeout_seconds,
                status,
                created_at,
                job_done_trigger_webhooks: job_done_trigger_webhooks@,
            }),
    {
        JobDoneWatcher { id, job_name, timeout_seconds, status, created_at, job_done_trigger_webhooks }
    }

    /// Replaces the status.
    pub fn set_status(&mut self, status: JobDoneWatcherStatus)
        ensures
            final(self)@ == (WatcherModel { status, ..old(self)@ }),
    {
        self.status = status;
    }
}

/// The mathematical shape of a webhook.
#[verifier::ext_equal]
pub struct WebhookModel {
    pub id: u128,
    pub url: Seq<char>,
    pub request_body: Seq<char>,
    pub description: Seq<char>,
    pub created_at: i64,
}

/// A registered webhook: immutable after creation.
#[derive(Debug)]
pub struct Webhook {
    pub id: u128,
    pub url: HttpUrl,
    pub request_body: String,
    pub description: String,
    pub created_at: i64,
}

impl Clone for Webhook {
    /// The copy has the same model.
    fn clone(&self) -> (r: Self)
        ensures
            r@ == self@,
    {
        Webhook {
            id: self.id,
            url: self.url.clone(),
            request_body: self.request_body.clone(),
            description: self.description.clone(),
            created_at: self.created_at,
        }
    }
}

impl View for Webhook {
    type V = WebhookModel;

    open spec fn view(&self) -> WebhookModel {
        WebhookModel {
            id: self.id,
            url: self.url@,
            request_body: self.request_body@,
            description: self.description@,
            created_at: self.created_at,
        }
    }
}

impl Webhook {
    /// Builds a webhook record.
    pub fn new(
        id: u128,
        url: HttpUrl,
        request_body: &str,
        description: &str,
        created_at: i64,
    ) -> (r: Webhook)
        ensures
            r@ == (WebhookModel {
                id,
                url: url@,
                request_body: request_body@,
                description: description@,
                created_at,
            }),
    {
        Webhook {
            id,
            url,
            request_body: request_body.to_owned(),
            description: description.to_owned(),
            created_at,
        }
    }
}

/// The mathematical shape of a family watcher.
#[verifier::ext_equal]
pub struct FamilyWatcherModel {
    pub job_family: Seq<char>,
    pub url: Seq<char>,
    pub request_body: Seq<char>,
    pub description: Seq<char>,
}

/// A persistent watcher bound to a workload family; it fires on every
/// matching completion.
#[derive(Debug)]
pub struct JobFamilyWatcher {
    pub job_family: String,
    pub url: HttpUrl,
    pub request_body: String,
    pub description: String,
}

impl Clone for JobFamilyWatcher {
    /// The copy has the same model.
    fn clone(&self) -> (r: Self)
        ensures
            r@ == self@,
    {
        JobFamilyWatcher {
            job_family: self.job_family.clone(),
            url: self.url.clone(),
            request_body: self.request_body.clone(),
            description: self.description.clone(),
        }
    }
}

impl View for JobFamilyWatcher {
    type V = FamilyWatcherModel;

    open spec fn view(&self) -> FamilyWatcherModel {
        FamilyWatcherModel {
            job_family: self.job_family@,
            url: self.url@,
            request_body: self.request_body@,
            description: self.description@,
        }
    }
}

impl JobFamilyWatcher {
    /// Builds a family watcher, validating the URL.
    pub fn new(job_family: &str, url: &str, request_body: &str, description: &str) -> (r: Result<
        JobFamilyWatcher,
        HttpUrlError,
    >)
        ensures
            r matches Ok(w) ==> {
                &&& w@.job_family == job_family@
                &&& crate::external::parsed_url(url@) == Some(w@.url)
                &&& w@.request_body == request_body@
                &&& w@.description == description@
            },
            (r matches Ok(_)) <==> (crate::http_url::spec_is_http_or_https(url@)
                && crate::external::parsed_url(url@) is Some),
    {
        let url = HttpUrl::new(url)?;
        Ok(
            JobFamilyWatcher {
                job_family: job_family.to_owned(),
                url,
                request_body: request_body.to_owned(),
                description: description.to_owned(),
            },
        )
    }
}

// ---------------------------------------------------------------------
// Creation requests
// ---------------------------------------------------------------------

/// The reasons a webhook creation request is rejected.
#[derive(Debug)]
pub enum CreateWebhookRequestError {
    InvalidHttpUrl(HttpUrlError),
}

/// A validated request to create a webhook.
#[derive(Debug)]
pub struct CreateWebhookRequest {
    pub url: HttpUrl,
    pub request_body: String,
    pub description: String,
}

impl Clone for CreateWebhookRequest {
    /// The copy carries the same fields.
    fn clone(&self) -> (r: Self)
        ensures
            r.url@ == self.url@,
            r.request_body == self.request_body,
            r.description == self.description,
    {
        CreateWebhookRequest {
            url: self.url.clone(),
            request_body: self.request_body.clone(),
            description: self.description.clone(),
        }
    }
}

impl CreateWebhookRequest {
    /// Validates the URL and builds the request.
    pub fn new(url: &str, request_body: &str, description: &str) -> (r: Result<
        CreateWebhookRequest,
        CreateWebhookRequestError,
    >)
        ensures
            r matches Ok(q) ==> {
                &&& crate::external::parsed_url(url@) == Some(q.url@)
                &&& q.request_body@ == request_body@
                &&& q.description@ == description@
            },
            (r matches Ok(_)) <==> (crate::http_url::spec_is_http_or_https(url@)
                && crate::external::parsed_url(url@) is Some),
    {
        match HttpUrl::new(url) {
            Ok(u) => Ok(
                CreateWebhookRequest {
                    url: u,
                    request_body: request_body.to_owned(),
                    description: description.to_owned(),
                },
            ),
            Err(e) => Err(CreateWebhookRequestError::InvalidHttpUrl(e)),
        }
    }
}

/// The reasons a trigger webhook creation request is rejected.
#[derive(Debug)]
pub enum CreateJobDoneTriggerWebhookRequestError {
    InvalidWebhookId(uuid::Error),
}

/// A validated request for one trigger webhook of a watcher.
#[derive(Clone, Copy, Debug)]
pub struct CreateJobDoneTriggerWebhookRequest {
    pub webhook_id: u128,
    pub timeout_seconds: u32,
}

impl CreateJobDoneTriggerWebhookRequest {
    /// Parses the referenced webhook identifier and builds the request.
    pub fn new(webhook_id: &str, timeout_seconds: u32) -> (r: Result<
        CreateJobDoneTriggerWebhookRequest,
        CreateJobDoneTriggerWebhookRequestError,
    >)
        ensures
            r matches Ok(q) ==> crate::external::parsed_uuid(webhook_id@) == Some(q.webhook_id)
                && q.timeout_seconds == timeout_seconds,
            (r matches Ok(_)) <==> crate::external::parsed_uuid(webhook_id@) is Some,
    {
        match crate::external::parse_uuid_str(webhook_id) {
            Ok(id) => Ok(CreateJobDoneTriggerWebhookRequest { webhook_id: id, timeout_seconds }),
            Err(e) => Err(CreateJobDoneTriggerWebhookRequestError::InvalidWebhookId(e)),
        }
    }

    /// Builds the request from an already-parsed identifier.
    pub fn from_id(webhook_id: u128, timeout_seconds: u32) -> (r: CreateJobDoneTriggerWebhookRequest)
        ensures
            r == (CreateJobDoneTriggerWebhookRequest { webhook_id, timeout_seconds }),
    {
        CreateJobDoneTriggerWebhookRequest { webhook_id, timeout_seconds }
    }
}

/// The mathematical shape of a watcher creation request.
#[verifier::ext_equal]
pub struct CreateWatcherRequestModel {
    pub job_name: Seq<char>,
    pub timeout_seconds: u32,
    pub job_done_trigger_webhooks: Seq<CreateJobDoneTriggerWebhookRequest>,
}

/// A validated request to create a watcher.
#[derive(Debug)]
pub struct CreateJobDoneWatcherRequest {
    pub job_name: JobName,
    pub timeout_seconds: u32,
    pub job_done_trigger_webhooks: Vec<CreateJobDoneTriggerWebhookRequest>,
}

impl Clone for CreateJobDoneWatcherRequest {
    /// The copy has the same model.
    fn clone(&self) -> (r: Self)
        ensures
            r@ == self@,
    {
        let triggers = self.job_done_trigger_webhooks.clone();
        proof {
            assert(triggers@ =~= self.job_done_trigger_webhooks@);
        }
        let r = CreateJobDoneWatcherRequest {
            job_name: self.job_name.clone(),
            timeout_seconds: self.timeout_seconds,
            job_done_trigger_webhooks: triggers,
        };
        proof {
            assert(r@ =~= self@);
        }
        r
    }
}

impl View for CreateJobDoneWatcherRequest {
    type V = CreateWatcherRequestModel;

    open spec fn view(&self) -> CreateWatcherRequestModel {
        CreateWatcherRequestModel {
            job_name: self.job_name@,
            timeout_seconds: self.timeout_seconds,
            job_done_trigger_webhooks: self.job_done_trigger_webhooks@,
        }
    }
}

impl CreateJobDoneWatcherRequest {
    /// Validates the workload name and builds the request.
    pub fn new(
        job_name: &str,
        timeout_seconds: u32,
        job_done_trigger_webhooks: Vec<CreateJobDoneTriggerWebhookRequest>,
    ) -> (r: Result<CreateJobDoneWatcherRequest, JobNameError>)
        ensures
            r matches Ok(q) ==> q@ == (CreateWatcherRequestModel {
                job_name: job_name@,
                timeout_seconds,
                job_done_trigger_webhooks: job_done_trigger_webhooks@,
            }),
            (r matches Ok(_)) <==> crate::job_name::job_name_valid(job_name@),
    {
        let job_name = JobName::new(job_name)?;
        Ok(CreateJobDoneWatcherRequest { job_name, timeout_seconds, job_done_trigger_webhooks })
    }
}


// ---------------------------------------------------------------------
// Accessors
// ---------------------------------------------------------------------

impl JobDoneTriggerWebhook {
    /// The trigger's identifier.
    pub fn id(&self) -> (r: u128)
        ensures
            r == self.id,
    {
        self.id
    }

    /// The referenced webhook's identifier.
    pub fn webhook_id(&self) -> (r: u128)
        ensures
            r == self.webhook_id,
    {
        self.webhook_id
    }

    /// The per-call timeout; `0` means no bound.
    pub fn timeout_seconds(&self) -> (r: u32)
        ensures
            r == self.timeout_seconds,
    {
        self.timeout_seconds
    }

    /// The trigger's status.
    pub fn status(&self) -> (r: JobDoneTriggerWebhookStatus)
        ensures
            r == self.status,
    {
        self.status
    }

    /// The instant of the HTTP attempt, if one was made.
    pub fn called_at(&self) -> (r: Option<i64>)
        ensures
            r == self.called_at,
    {
        self.called_at
    }
}

impl JobDoneWatcher {
    /// The watcher's identifier.
    pub fn id(&self) -> (r: u128)
        ensures
            r == self.id,
    {
        self.id
    }

    /// The watched workload's name.
    pub fn job_name(&self) -> (r: &str)
        ensures
            r@ == self@.job_name,
    {
        self.job_name.as_str()
    }

    /// The deadline in seconds; `0` means no deadline.
    pub fn timeout_seconds(&self) -> (r: u32)
        ensures
            r == self.timeout_seconds,
    {
        self.timeout_seconds
    }

    /// The watcher's status.
    pub fn status(&self) -> (r: JobDoneWatcherStatus)
        ensures
            r == self.status,
    {
        self.status
    }

    /// The creation instant.
    pub fn created_at(&self) -> (r: i64)
        ensures
            r == self.created_at,
    {
        self.created_at
    }

    /// The watcher's triggers, fixed at creation.
    pub fn job_done_trigger_webhooks(&self) -> (r: &Vec<JobDoneTriggerWebhook>)
        ensures
            r@ == self@.job_done_trigger_webhooks,
    {
        &self.job_done_trigger_webhooks
    }
}

impl Webhook {
    /// The webhook's identifier.
    pub fn id(&self) -> (r: u128)
        ensures
            r == self.id,
    {
        self.id
    }

    /// The webhook's URL.
    pub fn url(&self) -> (r: &HttpUrl)
        ensures
            r@ == self@.url,
    {
        &self.url
    }

    /// The body sent on invocation.
    pub fn request_body(&self) -> (r: &str)
        ensures
            r@ == self@.request_body,
    {
        self.request_body.as_str()
    }

    /// The free-text description.
    pub fn description(&self) -> (r: &str)
        ensures
            r@ == self@.description,
    {
        self.description.as_str()
    }

    /// The creation instant.
    pub fn created_at(&self) -> (r: i64)
        ensures
            r == self.created_at,
    {
        self.created_at
    }
}

impl JobFamilyWatcher {
    /// The family this watcher is bound to.
    pub fn job_family(&self) -> (r: &str)
        ensures
            r@ == self@.job_family,
    {
        self.job_family.as_str()
    }

    /// The webhook URL.
    pub fn url(&self) -> (r: &HttpUrl)
        ensures
            r@ == self@.url,
    {
        &self.url
    }

    /// The body sent on invocation.
    pub fn request_body(&self) -> (r: &str)
        ensures
            r@ == self@.request_body,
    {
        self.request_body.as_str()
    }

    /// The free-text description.
    pub fn description(&self) -> (r: &str)
        ensures
            r@ == self@.description,
    {
        self.description.as_str()
    }
}

impl CreateWebhookRequest {
    /// The validated URL.
    pub fn url(&self) -> (r: &HttpUrl)
        ensures
            r@ == self.url@,
    {
        &self.url
    }

    /// The body to send on invocation.
    pub fn request_body(&self) -> (r: &str)
        ensures
            r@ == self.request_body@,
    {
        self.request_body.as_str()
    }

    /// The free-text description.
    pub fn description(&self) -> (r: &str)
        ensures
            r@ == self.description@,
    {
        self.description.as_str()
    }
}

impl CreateJobDoneTriggerWebhookRequest {
    /// The referenced webhook's identifier.
    pub fn webhook_id(&self) -> (r: u128)
        ensures
            r == self.webhook_id,
    {
        self.webhook_id
    }

    /// The per-call timeout; `0` means no bound.
    pub fn timeout_seconds(&self) -> (r: u32)
        ensures
            r == self.timeout_seconds,
    {
        self.timeout_seconds
    }
}

impl CreateJobDoneWatcherRequest {
    /// The watched workload's name.
    pub fn job_name(&self) -> (r: &JobName)
        ensures
            r@ == self@.job_name,
    {
        &self.job_name
    }

    /// The deadline in seconds; `0` means no deadline.
    pub fn timeout_seconds(&self) -> (r: u32)
        ensures
            r == self.timeout_seconds,
    {
        self.timeout_seconds
    }

    /// The requested triggers.
    pub fn job_done_trigger_webhooks(&self) -> (r: &Vec<CreateJobDoneTriggerWebhookRequest>)
        ensures
            r@ == self@.job_done_trigger_webhooks,
    {
        &self.job_done_trigger_webhooks
    }
}

} // verus!
