use k8s_job_webhooks::api::{
    CreateJobDoneTriggerWebhookRequestApi, CreateJobDoneWatcherRequestApi,
    CreateJobDoneWatcherRequestApiError, CreateWebhookRequestApi,
};
use k8s_job_webhooks::http_url::{HttpUrl, HttpUrlError};
use k8s_job_webhooks::job_name::{JobName, JobNameError};
use k8s_job_webhooks::models::{JobDoneTriggerWebhookStatus, JobDoneWatcherStatus};
use k8s_job_webhooks::service::k8s_job_watcher::extract_cronjob_name_from_job_name;
use k8s_job_webhooks::setup::{database_scheme, is_in_memory_sqlite};

#[test]
fn job_name_accepts_ordinary_names() {
    let name = JobName::new("payroll-nightly").unwrap();
    assert_eq!(name.as_str(), "payroll-nightly");
    let name = JobName::new("a1.b_2-c").unwrap();
    assert_eq!(name.as_str(), "a1.b_2-c");
    assert!(JobName::new("").is_ok());
}

#[test]
fn job_name_rejects_too_long() {
    let long = "a".repeat(254);
    assert!(matches!(JobName::new(&long), Err(JobNameError::TooLong)));
    let ok = "a".repeat(253);
    assert!(JobName::new(&ok).is_ok());
}

#[test]
fn job_name_rejects_invalid_characters() {
    assert!(matches!(
        JobName::new("pay roll"),
        Err(JobNameError::InvalidCharacters)
    ));
    assert!(matches!(
        JobName::new("payroll!"),
        Err(JobNameError::InvalidCharacters)
    ));
}

#[test]
fn job_name_rejects_invalid_start_character() {
    assert!(matches!(
        JobName::new("-payroll"),
        Err(JobNameError::InvalidStartCharacter)
    ));
    assert!(matches!(
        JobName::new(".hidden"),
        Err(JobNameError::InvalidStartCharacter)
    ));
}

#[test]
fn http_url_accepts_http_and_https() {
    let url = HttpUrl::new("http://sink/a").unwrap();
    assert_eq!(url.as_str(), "http://sink/a");
    assert!(HttpUrl::new("https://example.com/hook").is_ok());
}

#[test]
fn http_url_rejects_other_schemes_before_parsing() {
    assert!(matches!(
        HttpUrl::new("ftp://example.com"),
        Err(HttpUrlError::SchemeNotSupported)
    ));
    assert!(matches!(
        HttpUrl::new("file:///etc/passwd"),
        Err(HttpUrlError::SchemeNotSupported)
    ));
    // The scheme is compared whole: a scheme that merely starts with
    // "http" is rejected, and so is text with no scheme at all.
    assert!(matches!(
        HttpUrl::new("httpx://example.com"),
        Err(HttpUrlError::SchemeNotSupported)
    ));
    assert!(matches!(
        HttpUrl::new("HTTP://example.com"),
        Err(HttpUrlError::SchemeNotSupported)
    ));
    assert!(matches!(
        HttpUrl::new("no-scheme-here"),
        Err(HttpUrlError::SchemeNotSupported)
    ));
}

#[test]
fn http_url_normalizes_its_text() {
    // The parser's serialization, not the raw input, is what is held.
    let url = HttpUrl::new("http://SINK").unwrap();
    assert_eq!(url.as_str(), "http://sink/");
}

#[test]
fn job_name_accepts_unicode_alphanumerics_in_body() {
    let name = JobName::new("a-m\u{fc}ller").unwrap();
    assert_eq!(name.as_str(), "a-m\u{fc}ller");
}

#[test]
fn http_url_rejects_unparseable_text() {
    assert!(matches!(
        HttpUrl::new("http://"),
        Err(HttpUrlError::InvalidHttpUrl(_))
    ));
}

#[test]
fn watcher_status_storage_round_trip() {
    let all = [
        JobDoneWatcherStatus::Completed,
        JobDoneWatcherStatus::PartiallyCompleted,
        JobDoneWatcherStatus::Pending,
        JobDoneWatcherStatus::Processing,
        JobDoneWatcherStatus::Cancelled,
        JobDoneWatcherStatus::Failed,
        JobDoneWatcherStatus::Timeout,
    ];
    for st in all {
        let text = st.as_storage_str();
        assert_eq!(JobDoneWatcherStatus::parse_storage_str(text), Some(st));
    }
    assert_eq!(JobDoneWatcherStatus::parse_storage_str("nonsense"), None);
}

#[test]
fn trigger_status_storage_round_trip() {
    let all = [
        JobDoneTriggerWebhookStatus::Called,
        JobDoneTriggerWebhookStatus::NotCalled,
        JobDoneTriggerWebhookStatus::Failed,
        JobDoneTriggerWebhookStatus::Timeout,
        JobDoneTriggerWebhookStatus::Cancelled,
    ];
    for st in all {
        let text = st.as_storage_str();
        assert_eq!(JobDoneTriggerWebhookStatus::parse_storage_str(text), Some(st));
    }
    assert_eq!(JobDoneTriggerWebhookStatus::parse_storage_str(""), None);
}

#[test]
fn watcher_status_terminality() {
    assert!(!JobDoneWatcherStatus::Pending.is_terminal());
    assert!(!JobDoneWatcherStatus::Processing.is_terminal());
    assert!(JobDoneWatcherStatus::Completed.is_terminal());
    assert!(JobDoneWatcherStatus::PartiallyCompleted.is_terminal());
    assert!(JobDoneWatcherStatus::Failed.is_terminal());
    assert!(JobDoneWatcherStatus::Timeout.is_terminal());
    assert!(JobDoneWatcherStatus::Cancelled.is_terminal());
}

#[test]
fn family_derivation_strips_last_segment() {
    assert_eq!(
        extract_cronjob_name_from_job_name("payroll-nightly").as_deref(),
        Some("payroll")
    );
    assert_eq!(
        extract_cronjob_name_from_job_name("payroll-42").as_deref(),
        Some("payroll")
    );
    assert_eq!(
        extract_cronjob_name_from_job_name("a-b-c-1234").as_deref(),
        Some("a-b-c")
    );
    assert_eq!(extract_cronjob_name_from_job_name("payroll"), None);
    assert_eq!(extract_cronjob_name_from_job_name("").as_deref(), None);
    assert_eq!(extract_cronjob_name_from_job_name("-x").as_deref(), Some(""));
}

#[test]
fn in_memory_sqlite_forms() {
    assert!(is_in_memory_sqlite("sqlite::memory:"));
    assert!(is_in_memory_sqlite("sqlite://:memory:"));
    assert!(is_in_memory_sqlite("sqlite:"));
    assert!(is_in_memory_sqlite("sqlite://"));
    assert!(!is_in_memory_sqlite("sqlite://file.db"));
    assert!(!is_in_memory_sqlite("postgres://x"));
}

#[test]
fn database_scheme_is_prefix_before_colon() {
    assert_eq!(database_scheme("sqlite::memory:"), "sqlite");
    assert_eq!(database_scheme("postgres://host/db"), "postgres");
    assert_eq!(database_scheme("plaintext"), "plaintext");
}

#[test]
fn webhook_request_api_validation() {
    let api = CreateWebhookRequestApi {
        url: String::from("http://sink/a"),
        request_body: String::from("{\"k\":1}"),
        description: String::from("a sink"),
    };
    let request = api.try_into_request().unwrap();
    assert_eq!(request.url().as_str(), "http://sink/a");
    assert_eq!(request.request_body(), "{\"k\":1}");
    assert_eq!(request.description(), "a sink");

    let bad = CreateWebhookRequestApi {
        url: String::from("gopher://sink"),
        request_body: String::new(),
        description: String::new(),
    };
    assert!(bad.try_into_request().is_err());
}

#[test]
fn watcher_request_api_validation() {
    let api = CreateJobDoneWatcherRequestApi {
        job_name: String::from("payroll-nightly"),
        timeout_seconds: 5,
        job_done_trigger_webhooks: vec![CreateJobDoneTriggerWebhookRequestApi {
            webhook_id: String::from("550e8400-e29b-41d4-a716-446655440000"),
            timeout_seconds: 0,
        }],
    };
    let request = api.try_into_request().unwrap();
    assert_eq!(request.job_name().as_str(), "payroll-nightly");
    assert_eq!(request.timeout_seconds(), 5);
    assert_eq!(request.job_done_trigger_webhooks().len(), 1);
    assert_eq!(
        request.job_done_trigger_webhooks()[0].webhook_id(),
        0x550e8400e29b41d4a716446655440000u128
    );

    let bad_id = CreateJobDoneWatcherRequestApi {
        job_name: String::from("payroll-nightly"),
        timeout_seconds: 0,
        job_done_trigger_webhooks: vec![CreateJobDoneTriggerWebhookRequestApi {
            webhook_id: String::from("not-a-uuid"),
            timeout_seconds: 0,
        }],
    };
    assert!(matches!(
        bad_id.try_into_request(),
        Err(CreateJobDoneWatcherRequestApiError::InvalidWebhookId(_))
    ));

    let bad_name = CreateJobDoneWatcherRequestApi {
        job_name: String::from("-bad"),
        timeout_seconds: 0,
        job_done_trigger_webhooks: Vec::new(),
    };
    assert!(matches!(
        bad_name.try_into_request(),
        Err(CreateJobDoneWatcherRequestApiError::InvalidJobName(_))
    ));
}
