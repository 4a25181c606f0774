//! Wire-side request shapes: the unvalidated bodies the REST surface
//! accepts, and their validation into service requests.  Serialization
//! itself stays outside; these types hold plain values only.

use vstd::prelude::*;
use crate::external::parsed_uuid;
use crate::job_name::{job_name_valid, JobNameError};
use crate::models::{
    CreateJobDoneTriggerWebhookRequest, CreateJobDoneTriggerWebhookRequestError,
    CreateJobDoneWatcherRequest, CreateWebhookRequest, CreateWebhookRequestError,
};

verus! {

/// The body of a webhook creation call, before validation.
#[derive(Clone, Debug)]
pub struct CreateWebhookRequestApi {
    pub url: String,
    pub request_body: String,
    pub description: String,
}

impl CreateWebhookRequestApi {
    /// Validates the URL and yields the service request.
    pub fn try_into_request(&self) -> (r: Result<CreateWebhookRequest, CreateWebhookRequestError>)
        ensures
            r matches Ok(q) ==> {
                &&& crate::external::parsed_url(self.url@) == Some(q.url@)
                &&& q.request_body@ == self.request_body@
                &&& q.description@ == self.description@
            },
            (r is Ok) <==> (crate::http_url::spec_is_http_or_https(self.url@)
                && crate::external::parsed_url(self.url@) is Some),
    {
        CreateWebhookRequest::new(
            self.url.as_str(),
            self.request_body.as_str(),
            self.description.as_str(),
        )
    }
}

/// One trigger webhook of a watcher creation call, before validation:
/// the referenced webhook as its textual identifier.
#[derive(Clone, Debug)]
pub struct CreateJobDoneTriggerWebhookRequestApi {
    pub webhook_id: String,
    pub timeout_seconds: u32,
}

impl CreateJobDoneTriggerWebhookRequestApi {
    /// Parses the webhook identifier and yields the service request.
    pub fn try_into_request(&self) -> (r: Result<
        CreateJobDoneTriggerWebhookRequest,
        CreateJobDoneTriggerWebhookRequestError,
    >)
        ensures
            r matches Ok(q) ==> parsed_uuid(self.webhook_id@) == Some(q.webhook_id)
                && q.timeout_seconds == self.timeout_seconds,
            (r is Ok) <==> parsed_uuid(self.webhook_id@) is Some,
    {
        CreateJobDoneTriggerWebhookRequest::new(self.webhook_id.as_str(), self.timeout_seconds)
    }
}

/// The reasons a watcher creation body is rejected: an unparseable
/// webhook identifier in some trigger, or an invalid workload name.
#[derive(Debug)]
pub enum CreateJobDoneWatcherRequestApiError {
    InvalidWebhookId(CreateJobDoneTriggerWebhookRequestError),
    InvalidJobName(JobNameError),
}

/// The body of a watcher creation call, before validation.
#[derive(Clone, Debug)]
pub struct CreateJobDoneWatcherRequestApi {
    pub job_name: String,
    pub timeout_seconds: u32,
    pub job_done_trigger_webhooks: Vec<CreateJobDoneTriggerWebhookRequestApi>,
}

impl CreateJobDoneWatcherRequestApi {
    /// Validates every trigger's webhook identifier, then the workload
    /// name, and yields the service request.  Trigger errors take
    /// precedence over the name check, as the triggers are examined
    /// first.
    pub fn try_into_request(&self) -> (r: Result<
        CreateJobDoneWatcherRequest,
        CreateJobDoneWatcherRequestApiError,
    >)
        ensures
            r matches Ok(q) ==> {
                &&& q@.job_name == self.job_name@
                &&& q@.timeout_seconds == self.timeout_seconds
                &&& q@.job_done_trigger_webhooks.len() == self.job_done_trigger_webhooks@.len()
                &&& forall|i: int|
                    0 <= i < q@.job_done_trigger_webhooks.len() ==> {
                        &&& parsed_uuid(self.job_done_trigger_webhooks@[i].webhook_id@) == Some(
                            (#[trigger] q@.job_done_trigger_webhooks[i]).webhook_id,
                        )
                        &&& q@.job_done_trigger_webhooks[i].timeout_seconds
                            == self.job_done_trigger_webhooks@[i].timeout_seconds
                    }
            },
            (r matches Err(e) && e matches CreateJobDoneWatcherRequestApiError::InvalidWebhookId(_))
                <==> exists|i: int|
                0 <= i < self.job_done_trigger_webhooks@.len() && parsed_uuid(
                    (#[trigger] self.job_done_trigger_webhooks@[i]).webhook_id@,
                ) is None,
            (r matches Err(e) && e matches CreateJobDoneWatcherRequestApiError::InvalidJobName(_))
                <==> ((forall|i: int|
                0 <= i < self.job_done_trigger_webhooks@.len() ==> parsed_uuid(
                    (#[trigger] self.job_done_trigger_webhooks@[i]).webhook_id@,
                ) is Some) && !job_name_valid(self.job_name@)),
            (r is Ok) <==> ((forall|i: int|
                0 <= i < self.job_done_trigger_webhooks@.len() ==> parsed_uuid(
                    (#[trigger] self.job_done_trigger_webhooks@[i]).webhook_id@,
                ) is Some) && job_name_valid(self.job_name@)),
    {
        let mut webhooks: Vec<CreateJobDoneTriggerWebhookRequest> = Vec::new();
        let n = self.job_done_trigger_webhooks.len();
        let mut i: usize = 0;
        while i < n
            invariant
                i <= n,
                n == self.job_done_trigger_webhooks@.len(),
                webhooks@.len() == i,
                forall|k: int|
                    0 <= k < i ==> {
                        &&& parsed_uuid(
                            (#[trigger] self.job_done_trigger_webhooks@[k]).webhook_id@,
                        ) == Some(webhooks@[k].webhook_id)
                        &&& webhooks@[k].timeout_seconds
                            == self.job_done_trigger_webhooks@[k].timeout_seconds
                    },
            decreases n - i,
        {
            match self.job_done_trigger_webhooks[i].try_into_request() {
                Ok(q) => {
                    webhooks.push(q);
                },
                Err(e) => {
                    return Err(CreateJobDoneWatcherRequestApiError::InvalidWebhookId(e));
                },
            }
            i = i + 1;
        }
        match CreateJobDoneWatcherRequest::new(
            self.job_name.as_str(),
            self.timeout_seconds,
            webhooks,
        ) {
            Ok(q) => Ok(q),
            Err(e) => Err(CreateJobDoneWatcherRequestApiError::InvalidJobName(e)),
        }
    }
}

} // verus!
