//! Webhook service: creates webhook records with fresh identifiers and
//! timestamps, and reads them back.

use vstd::prelude::*;
use crate::external::{fresh_id, now_millis};
use crate::models::{CreateWebhookRequest, Webhook};
use crate::repository::{webhooks_contain_id, InMemoryWebhookRepository, StorageError};

verus! {

/// Creates a webhook from a validated request: a fresh identifier, the
/// current instant, and the request's fields, persisted as one record.
/// Creation fails only when the generated identifier already exists.
pub fn create_webhook(
    webhook_repository: &mut InMemoryWebhookRepository,
    create_webhook_request: CreateWebhookRequest,
) -> (r: Result<Webhook, StorageError>)
    ensures
        r matches Ok(w) ==> {
            &&& w@.url == create_webhook_request.url@
            &&& w@.request_body == create_webhook_request.request_body@
            &&& w@.description == create_webhook_request.description@
            &&& !webhooks_contain_id(old(webhook_repository)@, w@.id)
            &&& final(webhook_repository)@ == old(webhook_repository)@.push(w@)
        },
        r matches Err(e) ==> e == StorageError::DuplicateId && final(webhook_repository)@ == old(
            webhook_repository,
        )@,
        old(webhook_repository)@.len() == 0 ==> r is Ok,
{
    let id = fresh_id();
    let created_at = now_millis();
    let webhook = Webhook::new(
        id,
        create_webhook_request.url,
        create_webhook_request.request_body.as_str(),
        create_webhook_request.description.as_str(),
        created_at,
    );
    match webhook_repository.create_webhook(&webhook) {
        Ok(_) => Ok(webhook),
        Err(e) => Err(e),
    }
}

/// Every stored webhook.
pub fn get_webhooks(webhook_repository: &InMemoryWebhookRepository) -> (r: Vec<Webhook>)
    ensures
        r@.len() == webhook_repository@.len(),
        forall|i: int|
            0 <= i < r@.len() ==> (#[trigger] r@[i])@ == webhook_repository@[i],
{
    webhook_repository.find_all_webhooks()
}

/// The stored webhook carrying `webhook_id`, if any.
pub fn get_webhook_by_id(
    webhook_repository: &InMemoryWebhookRepository,
    webhook_id: u128,
) -> (r: Option<Webhook>)
    ensures
        r matches Some(w) ==> w@.id == webhook_id && exists|i: int|
            0 <= i < webhook_repository@.len() && #[trigger] webhook_repository@[i] == w@,
        (r is Some) <==> webhooks_contain_id(webhook_repository@, webhook_id),
{
    webhook_repository.find_webhook_by_id(webhook_id)
}

} // verus!
