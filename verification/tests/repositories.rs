use k8s_job_webhooks::http_url::HttpUrl;
use k8s_job_webhooks::job_name::JobName;
use k8s_job_webhooks::models::{
    JobDoneTriggerWebhook, JobDoneTriggerWebhookStatus, JobDoneWatcher, JobDoneWatcherStatus,
    JobFamilyWatcher, Webhook,
};
use k8s_job_webhooks::repository::{
    InMemoryJobDoneWatcherRepository, InMemoryJobFamilyWatcherRepository,
    InMemoryWebhookRepository, StorageError,
};

fn sample_webhook(id: u128) -> Webhook {
    Webhook::new(
        id,
        HttpUrl::new("http://sink/a").unwrap(),
        "body",
        "desc",
        1_000,
    )
}

fn sample_watcher(id: u128, job_name: &str, triggers: Vec<JobDoneTriggerWebhook>) -> JobDoneWatcher {
    JobDoneWatcher::new(
        id,
        JobName::new(job_name).unwrap(),
        0,
        triggers,
        JobDoneWatcherStatus::Pending,
        2_000,
    )
}

fn sample_trigger(id: u128, webhook_id: u128) -> JobDoneTriggerWebhook {
    JobDoneTriggerWebhook::new(id, webhook_id, 0, JobDoneTriggerWebhookStatus::NotCalled, None)
}

#[test]
fn webhook_repository_create_and_find() {
    let mut repo = InMemoryWebhookRepository::new();
    assert!(repo.find_all_webhooks().is_empty());
    assert!(repo.find_webhook_by_id(1).is_none());

    repo.create_webhook(&sample_webhook(1)).unwrap();
    repo.create_webhook(&sample_webhook(2)).unwrap();

    let all = repo.find_all_webhooks();
    assert_eq!(all.len(), 2);
    assert_eq!(all[0].id(), 1);
    assert_eq!(all[1].id(), 2);

    let found = repo.find_webhook_by_id(2).unwrap();
    assert_eq!(found.id(), 2);
    assert_eq!(found.url().as_str(), "http://sink/a");
    assert_eq!(found.request_body(), "body");
    assert_eq!(found.description(), "desc");
    assert_eq!(found.created_at(), 1_000);
}

#[test]
fn webhook_repository_rejects_duplicate_id() {
    let mut repo = InMemoryWebhookRepository::new();
    repo.create_webhook(&sample_webhook(7)).unwrap();
    assert_eq!(
        repo.create_webhook(&sample_webhook(7)),
        Err(StorageError::DuplicateId)
    );
    assert_eq!(repo.find_all_webhooks().len(), 1);
}

#[test]
fn watcher_repository_create_and_find() {
    let mut repo = InMemoryJobDoneWatcherRepository::new();
    let w = sample_watcher(10, "payroll-nightly", vec![sample_trigger(100, 1)]);
    repo.create_watcher(&w).unwrap();
    assert_eq!(
        repo.create_watcher(&w),
        Err(StorageError::DuplicateId)
    );

    let found = repo.find_watcher_by_id(10).unwrap();
    assert_eq!(found.id(), 10);
    assert_eq!(found.job_name(), "payroll-nightly");
    assert_eq!(found.status(), JobDoneWatcherStatus::Pending);
    assert_eq!(found.job_done_trigger_webhooks().len(), 1);
    assert!(repo.find_watcher_by_id(11).is_none());

    let by_name = repo.find_all_watchers_by_job_name_and_status(
        &JobName::new("payroll-nightly").unwrap(),
        JobDoneWatcherStatus::Pending,
    );
    assert_eq!(by_name.len(), 1);
    let none = repo.find_all_watchers_by_job_name_and_status(
        &JobName::new("other").unwrap(),
        JobDoneWatcherStatus::Pending,
    );
    assert!(none.is_empty());
}

#[test]
fn watcher_repository_update_status() {
    let mut repo = InMemoryJobDoneWatcherRepository::new();
    repo.create_watcher(&sample_watcher(1, "job-a", Vec::new())).unwrap();

    assert_eq!(
        repo.update_watcher_status(2, JobDoneWatcherStatus::Cancelled),
        Err(StorageError::NotFound)
    );
    repo.update_watcher_status(1, JobDoneWatcherStatus::Processing).unwrap();
    assert_eq!(
        repo.find_watcher_by_id(1).unwrap().status(),
        JobDoneWatcherStatus::Processing
    );
}

#[test]
fn watcher_repository_cas_respects_expected_status() {
    let mut repo = InMemoryJobDoneWatcherRepository::new();
    repo.create_watcher(&sample_watcher(1, "job-a", Vec::new())).unwrap();

    // CAS with the wrong expected status is a no-op.
    repo.update_watcher_status_by_status(
        1,
        JobDoneWatcherStatus::Processing,
        JobDoneWatcherStatus::Timeout,
    )
    .unwrap();
    assert_eq!(
        repo.find_watcher_by_id(1).unwrap().status(),
        JobDoneWatcherStatus::Pending
    );

    // CAS with the right expected status flips.
    repo.update_watcher_status_by_status(
        1,
        JobDoneWatcherStatus::Pending,
        JobDoneWatcherStatus::Timeout,
    )
    .unwrap();
    assert_eq!(
        repo.find_watcher_by_id(1).unwrap().status(),
        JobDoneWatcherStatus::Timeout
    );
}

#[test]
fn watcher_repository_claim_flips_only_matching_pending() {
    let mut repo = InMemoryJobDoneWatcherRepository::new();
    repo.create_watcher(&sample_watcher(1, "job-a", Vec::new())).unwrap();
    repo.create_watcher(&sample_watcher(2, "job-a", Vec::new())).unwrap();
    repo.create_watcher(&sample_watcher(3, "job-b", Vec::new())).unwrap();
    repo.update_watcher_status(2, JobDoneWatcherStatus::Timeout).unwrap();

    let claimed = repo
        .update_watchers_status_by_job_name_and_status(
            &JobName::new("job-a").unwrap(),
            JobDoneWatcherStatus::Pending,
            JobDoneWatcherStatus::Processing,
        )
        .unwrap();

    // Only the Pending watcher of job-a was flipped; snapshots are
    // post-transition.
    assert_eq!(claimed.len(), 1);
    assert_eq!(claimed[0].id(), 1);
    assert_eq!(claimed[0].status(), JobDoneWatcherStatus::Processing);

    assert_eq!(repo.find_watcher_by_id(1).unwrap().status(), JobDoneWatcherStatus::Processing);
    assert_eq!(repo.find_watcher_by_id(2).unwrap().status(), JobDoneWatcherStatus::Timeout);
    assert_eq!(repo.find_watcher_by_id(3).unwrap().status(), JobDoneWatcherStatus::Pending);
}

#[test]
fn watcher_repository_trigger_update() {
    let mut repo = InMemoryJobDoneWatcherRepository::new();
    let triggers = vec![sample_trigger(100, 1), sample_trigger(101, 2)];
    repo.create_watcher(&sample_watcher(1, "job-a", triggers)).unwrap();

    repo.update_job_done_trigger_webhook_status_and_called_at(
        1,
        101,
        JobDoneTriggerWebhookStatus::Called,
        5_500,
    )
    .unwrap();

    let w = repo.find_watcher_by_id(1).unwrap();
    let ts = w.job_done_trigger_webhooks();
    assert_eq!(ts[0].status(), JobDoneTriggerWebhookStatus::NotCalled);
    assert_eq!(ts[0].called_at(), None);
    assert_eq!(ts[1].status(), JobDoneTriggerWebhookStatus::Called);
    assert_eq!(ts[1].called_at(), Some(5_500));

    assert_eq!(
        repo.update_job_done_trigger_webhook_status_and_called_at(
            1,
            999,
            JobDoneTriggerWebhookStatus::Failed,
            0,
        ),
        Err(StorageError::TriggerNotFound)
    );
    assert_eq!(
        repo.update_job_done_trigger_webhook_status_and_called_at(
            9,
            100,
            JobDoneTriggerWebhookStatus::Failed,
            0,
        ),
        Err(StorageError::NotFound)
    );
}

#[test]
fn family_repository_create_and_find_by_family() {
    let mut repo = InMemoryJobFamilyWatcherRepository::new();
    let a1 = JobFamilyWatcher::new("payroll", "http://sink/a", "b1", "first").unwrap();
    let a2 = JobFamilyWatcher::new("payroll", "http://sink/b", "b2", "second").unwrap();
    let other = JobFamilyWatcher::new("billing", "http://sink/c", "b3", "third").unwrap();
    repo.create_job_family_watcher(a1).unwrap();
    repo.create_job_family_watcher(other).unwrap();
    repo.create_job_family_watcher(a2).unwrap();

    let payroll = repo.find_all_job_family_watchers_by_job_family("payroll");
    assert_eq!(payroll.len(), 2);
    assert_eq!(payroll[0].url().as_str(), "http://sink/a");
    assert_eq!(payroll[1].url().as_str(), "http://sink/b");
    assert_eq!(payroll[0].request_body(), "b1");

    assert!(repo.find_all_job_family_watchers_by_job_family("none").is_empty());
}
