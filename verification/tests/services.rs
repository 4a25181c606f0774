use k8s_job_webhooks::idempotency::IdempotencyMap;
use k8s_job_webhooks::job_name::JobName;
use k8s_job_webhooks::models::{
    CreateJobDoneTriggerWebhookRequest, CreateJobDoneWatcherRequest, CreateWebhookRequest,
    JobDoneTriggerWebhookStatus, JobDoneWatcherStatus,
};
use k8s_job_webhooks::repository::{
    InMemoryJobDoneWatcherRepository, InMemoryJobFamilyWatcherRepository,
    InMemoryWebhookRepository,
};
use k8s_job_webhooks::service::job_done_watchers::{
    call_job_done_trigger_webhooks, claim_job_done_watchers, complete_job_done_watcher,
    create_job_done_watcher, create_job_done_watcher_idempotent,
    evaluate_job_done_watcher_status, get_job_done_watcher_by_id, get_job_done_watchers,
    record_job_done_trigger_webhook_outcome, timeout_job_done_watcher,
};
use k8s_job_webhooks::service::job_family_watcher::{
    create_job_family_watcher, job_family_watchers_to_notify,
};
use k8s_job_webhooks::service::webhooks::{create_webhook, get_webhook_by_id, get_webhooks};
use k8s_job_webhooks::models::JobFamilyWatcher;

fn watcher_request(job_name: &str, webhook_ids: &[u128]) -> CreateJobDoneWatcherRequest {
    let triggers: Vec<CreateJobDoneTriggerWebhookRequest> = webhook_ids
        .iter()
        .map(|id| CreateJobDoneTriggerWebhookRequest::from_id(*id, 0))
        .collect();
    CreateJobDoneWatcherRequest::new(job_name, 0, triggers).unwrap()
}

#[test]
fn create_then_get_webhook_round_trip() {
    let mut repo = InMemoryWebhookRepository::new();
    let request = CreateWebhookRequest::new("http://sink/a", "payload", "the sink").unwrap();
    let created = create_webhook(&mut repo, request).unwrap();

    let fetched = get_webhook_by_id(&repo, created.id()).unwrap();
    assert_eq!(fetched.id(), created.id());
    assert_eq!(fetched.url().as_str(), "http://sink/a");
    assert_eq!(fetched.request_body(), "payload");
    assert_eq!(fetched.description(), "the sink");
    assert_eq!(fetched.created_at(), created.created_at());
    assert_eq!(get_webhooks(&repo).len(), 1);
}

#[test]
fn create_watcher_starts_pending_with_untouched_triggers() {
    let mut repo = InMemoryJobDoneWatcherRepository::new();
    let created = create_job_done_watcher(&mut repo, watcher_request("payroll-nightly", &[1, 2]))
        .unwrap();
    assert_eq!(created.status(), JobDoneWatcherStatus::Pending);
    assert_eq!(created.job_name(), "payroll-nightly");
    let triggers = created.job_done_trigger_webhooks();
    assert_eq!(triggers.len(), 2);
    for t in triggers {
        assert_eq!(t.status(), JobDoneTriggerWebhookStatus::NotCalled);
        assert_eq!(t.called_at(), None);
    }
    assert_eq!(triggers[0].webhook_id(), 1);
    assert_eq!(triggers[1].webhook_id(), 2);
    assert_eq!(get_job_done_watchers(&repo).len(), 1);
    assert!(get_job_done_watcher_by_id(&repo, created.id()).is_some());
}

#[test]
fn happy_path_completes_watcher_and_records_trigger() {
    let mut webhook_repo = InMemoryWebhookRepository::new();
    let mut watcher_repo = InMemoryJobDoneWatcherRepository::new();

    let webhook = create_webhook(
        &mut webhook_repo,
        CreateWebhookRequest::new("http://sink/a", "payload", "").unwrap(),
    )
    .unwrap();

    let watcher = create_job_done_watcher(
        &mut watcher_repo,
        watcher_request("payroll-nightly", &[webhook.id()]),
    )
    .unwrap();

    let claimed = claim_job_done_watchers(
        &mut watcher_repo,
        &JobName::new("payroll-nightly").unwrap(),
    );
    assert_eq!(claimed.len(), 1);
    assert_eq!(claimed[0].id(), watcher.id());
    assert_eq!(claimed[0].status(), JobDoneWatcherStatus::Processing);

    // The webhook exists and (per this scenario) delivery succeeds.
    let trigger = claimed[0].job_done_trigger_webhooks()[0];
    assert!(get_webhook_by_id(&webhook_repo, trigger.webhook_id()).is_some());
    record_job_done_trigger_webhook_outcome(
        &mut watcher_repo,
        watcher.id(),
        trigger.id(),
        true,
        7_000,
    )
    .unwrap();

    let aggregate = complete_job_done_watcher(&mut watcher_repo, watcher.id()).unwrap();
    assert_eq!(aggregate, JobDoneWatcherStatus::Completed);

    let stored = get_job_done_watcher_by_id(&watcher_repo, watcher.id()).unwrap();
    assert_eq!(stored.status(), JobDoneWatcherStatus::Completed);
    let stored_trigger = stored.job_done_trigger_webhooks()[0];
    assert_eq!(stored_trigger.status(), JobDoneTriggerWebhookStatus::Called);
    assert_eq!(stored_trigger.called_at(), Some(7_000));
}

#[test]
fn mixed_fan_out_is_partially_completed() {
    let mut watcher_repo = InMemoryJobDoneWatcherRepository::new();
    let watcher = create_job_done_watcher(&mut watcher_repo, watcher_request("job-x", &[1, 2]))
        .unwrap();

    let claimed = claim_job_done_watchers(&mut watcher_repo, &JobName::new("job-x").unwrap());
    let triggers: Vec<_> = claimed[0].job_done_trigger_webhooks().clone();

    record_job_done_trigger_webhook_outcome(&mut watcher_repo, watcher.id(), triggers[0].id(), true, 100).unwrap();
    record_job_done_trigger_webhook_outcome(&mut watcher_repo, watcher.id(), triggers[1].id(), false, 110).unwrap();

    let aggregate = complete_job_done_watcher(&mut watcher_repo, watcher.id()).unwrap();
    assert_eq!(aggregate, JobDoneWatcherStatus::PartiallyCompleted);

    let stored = get_job_done_watcher_by_id(&watcher_repo, watcher.id()).unwrap();
    let ts = stored.job_done_trigger_webhooks();
    assert_eq!(ts[0].status(), JobDoneTriggerWebhookStatus::Called);
    assert_eq!(ts[1].status(), JobDoneTriggerWebhookStatus::Failed);
    assert_eq!(ts[0].called_at(), Some(100));
    assert_eq!(ts[1].called_at(), Some(110));
}

#[test]
fn all_failed_fan_out_is_failed() {
    let mut watcher_repo = InMemoryJobDoneWatcherRepository::new();
    let watcher = create_job_done_watcher(&mut watcher_repo, watcher_request("job-y", &[1]))
        .unwrap();
    let claimed = claim_job_done_watchers(&mut watcher_repo, &JobName::new("job-y").unwrap());
    let trigger = claimed[0].job_done_trigger_webhooks()[0];
    record_job_done_trigger_webhook_outcome(&mut watcher_repo, watcher.id(), trigger.id(), false, 5).unwrap();
    let aggregate = complete_job_done_watcher(&mut watcher_repo, watcher.id()).unwrap();
    assert_eq!(aggregate, JobDoneWatcherStatus::Failed);
}

#[test]
fn watcher_with_no_triggers_completes() {
    let mut watcher_repo = InMemoryJobDoneWatcherRepository::new();
    let watcher = create_job_done_watcher(&mut watcher_repo, watcher_request("job-z", &[]))
        .unwrap();
    claim_job_done_watchers(&mut watcher_repo, &JobName::new("job-z").unwrap());
    let aggregate = complete_job_done_watcher(&mut watcher_repo, watcher.id()).unwrap();
    assert_eq!(aggregate, JobDoneWatcherStatus::Completed);
}

#[test]
fn evaluate_matches_reduction_table() {
    assert_eq!(evaluate_job_done_watcher_status(0, 0, 0), JobDoneWatcherStatus::Completed);
    assert_eq!(evaluate_job_done_watcher_status(3, 3, 0), JobDoneWatcherStatus::Completed);
    assert_eq!(evaluate_job_done_watcher_status(3, 0, 3), JobDoneWatcherStatus::Failed);
    assert_eq!(
        evaluate_job_done_watcher_status(3, 1, 2),
        JobDoneWatcherStatus::PartiallyCompleted
    );
}

#[test]
fn timeout_race_timer_first() {
    // The timer fires before any completion: the watcher times out,
    // triggers stay untouched, and a later notification claims nothing.
    let mut watcher_repo = InMemoryJobDoneWatcherRepository::new();
    let watcher = create_job_done_watcher(&mut watcher_repo, watcher_request("slow-job", &[1]))
        .unwrap();

    timeout_job_done_watcher(&mut watcher_repo, watcher.id()).unwrap();
    let stored = get_job_done_watcher_by_id(&watcher_repo, watcher.id()).unwrap();
    assert_eq!(stored.status(), JobDoneWatcherStatus::Timeout);
    assert_eq!(
        stored.job_done_trigger_webhooks()[0].status(),
        JobDoneTriggerWebhookStatus::NotCalled
    );
    assert_eq!(stored.job_done_trigger_webhooks()[0].called_at(), None);

    let claimed = claim_job_done_watchers(&mut watcher_repo, &JobName::new("slow-job").unwrap());
    assert!(claimed.is_empty());
    assert_eq!(
        get_job_done_watcher_by_id(&watcher_repo, watcher.id()).unwrap().status(),
        JobDoneWatcherStatus::Timeout
    );
}

#[test]
fn timeout_race_claim_first() {
    // The notification claims the watcher before the timer fires: the
    // timer's compare-and-set loses and changes nothing.
    let mut watcher_repo = InMemoryJobDoneWatcherRepository::new();
    let watcher = create_job_done_watcher(&mut watcher_repo, watcher_request("fast-job", &[]))
        .unwrap();

    let claimed = claim_job_done_watchers(&mut watcher_repo, &JobName::new("fast-job").unwrap());
    assert_eq!(claimed.len(), 1);

    timeout_job_done_watcher(&mut watcher_repo, watcher.id()).unwrap();
    assert_eq!(
        get_job_done_watcher_by_id(&watcher_repo, watcher.id()).unwrap().status(),
        JobDoneWatcherStatus::Processing
    );
}

#[test]
fn idempotent_create_replays_same_watcher() {
    let mut cache = IdempotencyMap::new();
    let mut watcher_repo = InMemoryJobDoneWatcherRepository::new();
    let key: u128 = 42;

    let (first, replayed_first) = create_job_done_watcher_idempotent(
        &mut cache,
        &mut watcher_repo,
        watcher_request("payroll-nightly", &[1]),
        Some(key),
    )
    .unwrap();
    assert!(!replayed_first);

    // A retry with the same key and a different body replays the
    // first watcher and creates nothing new.
    let (second, replayed_second) = create_job_done_watcher_idempotent(
        &mut cache,
        &mut watcher_repo,
        watcher_request("other-job", &[2, 3]),
        Some(key),
    )
    .unwrap();
    assert!(replayed_second);
    assert_eq!(second.id(), first.id());
    assert_eq!(second.job_name(), "payroll-nightly");
    assert_eq!(get_job_done_watchers(&watcher_repo).len(), 1);

    // A different key creates a second watcher.
    let (_third, replayed_third) = create_job_done_watcher_idempotent(
        &mut cache,
        &mut watcher_repo,
        watcher_request("other-job", &[2]),
        Some(7),
    )
    .unwrap();
    assert!(!replayed_third);
    assert_eq!(get_job_done_watchers(&watcher_repo).len(), 2);

    // No key never replays.
    let (_fourth, replayed_fourth) = create_job_done_watcher_idempotent(
        &mut cache,
        &mut watcher_repo,
        watcher_request("payroll-nightly", &[1]),
        None,
    )
    .unwrap();
    assert!(!replayed_fourth);
    assert_eq!(get_job_done_watchers(&watcher_repo).len(), 3);
}

#[test]
fn family_fan_out_resolves_watchers_without_touching_job_watchers() {
    let mut family_repo = InMemoryJobFamilyWatcherRepository::new();
    let watcher_repo = InMemoryJobDoneWatcherRepository::new();

    create_job_family_watcher(
        &mut family_repo,
        JobFamilyWatcher::new("payroll", "http://sink/family", "fam-body", "").unwrap(),
    )
    .unwrap();

    let to_notify = job_family_watchers_to_notify(&family_repo, "payroll");
    assert_eq!(to_notify.len(), 1);
    assert_eq!(to_notify[0].url().as_str(), "http://sink/family");
    assert_eq!(to_notify[0].request_body(), "fam-body");

    assert!(job_family_watchers_to_notify(&family_repo, "billing").is_empty());
    assert!(get_job_done_watchers(&watcher_repo).is_empty());
}

#[test]
fn fan_out_driver_handles_missing_webhook_referent() {
    let mut webhook_repo = InMemoryWebhookRepository::new();
    let mut watcher_repo = InMemoryJobDoneWatcherRepository::new();

    let webhook = create_webhook(
        &mut webhook_repo,
        CreateWebhookRequest::new("http://sink/a", "payload", "").unwrap(),
    )
    .unwrap();

    // One trigger references the stored webhook, the other a webhook
    // that never existed: the missing referent marks its trigger
    // failed even though transport would have succeeded.
    let missing_webhook_id: u128 = 0xdead;
    let watcher = create_job_done_watcher(
        &mut watcher_repo,
        watcher_request("driver-job", &[webhook.id(), missing_webhook_id]),
    )
    .unwrap();

    let claimed = claim_job_done_watchers(&mut watcher_repo, &JobName::new("driver-job").unwrap());
    assert_eq!(claimed.len(), 1);

    let aggregate = call_job_done_trigger_webhooks(
        &mut watcher_repo,
        &webhook_repo,
        &claimed[0],
        &vec![true, true],
        9_000,
    )
    .unwrap();
    assert_eq!(aggregate, JobDoneWatcherStatus::PartiallyCompleted);

    let stored = get_job_done_watcher_by_id(&watcher_repo, watcher.id()).unwrap();
    assert_eq!(stored.status(), JobDoneWatcherStatus::PartiallyCompleted);
    let ts = stored.job_done_trigger_webhooks();
    assert_eq!(ts[0].status(), JobDoneTriggerWebhookStatus::Called);
    assert_eq!(ts[1].status(), JobDoneTriggerWebhookStatus::Failed);
    assert_eq!(ts[0].called_at(), Some(9_000));
    assert_eq!(ts[1].called_at(), Some(9_000));
}

#[test]
fn terminal_watcher_never_moves_again() {
    let mut watcher_repo = InMemoryJobDoneWatcherRepository::new();
    let watcher = create_job_done_watcher(&mut watcher_repo, watcher_request("done-job", &[]))
        .unwrap();
    claim_job_done_watchers(&mut watcher_repo, &JobName::new("done-job").unwrap());
    let aggregate = complete_job_done_watcher(&mut watcher_repo, watcher.id()).unwrap();
    assert_eq!(aggregate, JobDoneWatcherStatus::Completed);

    // Neither the timer nor a second notification nor a second
    // completion moves a terminal watcher.
    timeout_job_done_watcher(&mut watcher_repo, watcher.id()).unwrap();
    assert_eq!(
        get_job_done_watcher_by_id(&watcher_repo, watcher.id()).unwrap().status(),
        JobDoneWatcherStatus::Completed
    );
    let reclaimed = claim_job_done_watchers(&mut watcher_repo, &JobName::new("done-job").unwrap());
    assert!(reclaimed.is_empty());
    assert!(complete_job_done_watcher(&mut watcher_repo, watcher.id()).is_err());
    assert_eq!(
        get_job_done_watcher_by_id(&watcher_repo, watcher.id()).unwrap().status(),
        JobDoneWatcherStatus::Completed
    );
}

