use k8s_job_webhooks::service::k8s_job_watcher::{
    is_already_scanned_job, is_successfully_completed_job, k8s_webhooks_called_label,
    plan_job_event, JobCondition, JobEventAction, JobUpdate,
};
use k8s_job_webhooks::setup::{
    bootstrap_job_family_watchers, family_watcher_from_fields, family_watcher_from_yaml,
    load_job_family_watchers, ConfigError,
};
use k8s_job_webhooks::repository::InMemoryJobFamilyWatcherRepository;

fn condition(type_: &str, status: &str) -> JobCondition {
    JobCondition { type_: String::from(type_), status: String::from(status) }
}

fn completed_update(name: &str) -> JobUpdate {
    JobUpdate {
        name: Some(String::from(name)),
        labels: Vec::new(),
        conditions: Some(vec![condition("Complete", "True")]),
    }
}

#[test]
fn dedup_label_guard() {
    let key = k8s_webhooks_called_label();
    assert_eq!(key, "app.k8s.job.webhooks/webhooks-called");

    let marked = vec![(String::from(key), String::from("true"))];
    assert!(is_already_scanned_job(&marked));

    let unmarked = vec![(String::from(key), String::from("false"))];
    assert!(!is_already_scanned_job(&unmarked));
    assert!(!is_already_scanned_job(&Vec::new()));
    let other = vec![(String::from("app"), String::from("true"))];
    assert!(!is_already_scanned_job(&other));
}

#[test]
fn success_filter_reads_last_condition() {
    assert!(is_successfully_completed_job(&Some(vec![condition("Complete", "True")])));
    assert!(!is_successfully_completed_job(&Some(vec![condition("Complete", "False")])));
    assert!(!is_successfully_completed_job(&Some(vec![condition("Failed", "True")])));
    // Only the latest condition counts.
    assert!(!is_successfully_completed_job(&Some(vec![
        condition("Complete", "True"),
        condition("Failed", "True"),
    ])));
    assert!(is_successfully_completed_job(&Some(vec![
        condition("Failed", "True"),
        condition("Complete", "True"),
    ])));
    assert!(!is_successfully_completed_job(&Some(Vec::new())));
    assert!(!is_successfully_completed_job(&None));
}

#[test]
fn plan_notifies_on_fresh_completion() {
    let plan = plan_job_event(&completed_update("payroll-42"));
    match plan {
        JobEventAction::Notify { job_name, job_family } => {
            assert_eq!(job_name.as_str(), "payroll-42");
            assert_eq!(job_family.as_deref(), Some("payroll"));
        }
        JobEventAction::Skip => panic!("expected a notification plan"),
    }

    let plan = plan_job_event(&completed_update("nodash"));
    match plan {
        JobEventAction::Notify { job_name, job_family } => {
            assert_eq!(job_name.as_str(), "nodash");
            assert_eq!(job_family, None);
        }
        JobEventAction::Skip => panic!("expected a notification plan"),
    }
}

#[test]
fn plan_skips_marked_or_incomplete_updates() {
    // The dedup label wins over everything: a second delivery of the
    // same completion with the label set fires nothing.
    let mut marked = completed_update("payroll-42");
    marked.labels = vec![(
        String::from("app.k8s.job.webhooks/webhooks-called"),
        String::from("true"),
    )];
    assert!(matches!(plan_job_event(&marked), JobEventAction::Skip));

    let mut nameless = completed_update("payroll-42");
    nameless.name = None;
    assert!(matches!(plan_job_event(&nameless), JobEventAction::Skip));

    let mut statusless = completed_update("payroll-42");
    statusless.conditions = None;
    assert!(matches!(plan_job_event(&statusless), JobEventAction::Skip));

    let mut unfinished = completed_update("payroll-42");
    unfinished.conditions = Some(vec![condition("Complete", "False")]);
    assert!(matches!(plan_job_event(&unfinished), JobEventAction::Skip));

    let bad_name = completed_update("-bad-name");
    assert!(matches!(plan_job_event(&bad_name), JobEventAction::Skip));
}

#[test]
fn family_watcher_fields_validation() {
    let ok = family_watcher_from_fields(
        Some(String::from("payroll")),
        Some(String::from("http://sink/f")),
        None,
        None,
    )
    .unwrap();
    assert_eq!(ok.job_family(), "payroll");
    assert_eq!(ok.url().as_str(), "http://sink/f");
    assert_eq!(ok.request_body(), "");
    assert_eq!(ok.description(), "");

    assert!(matches!(
        family_watcher_from_fields(None, Some(String::from("http://x")), None, None),
        Err(ConfigError::MissingJobFamily)
    ));
    assert!(matches!(
        family_watcher_from_fields(Some(String::from("payroll")), None, None, None),
        Err(ConfigError::MissingUrl)
    ));
    assert!(matches!(
        family_watcher_from_fields(
            Some(String::from("payroll")),
            Some(String::from("ftp://x")),
            None,
            None,
        ),
        Err(ConfigError::InvalidUrl(_))
    ));
}

#[test]
fn yaml_config_round_trip_into_store() {
    let content = "\
- jobFamily: payroll
  url: http://sink/payroll
  requestBody: pay-body
  description: payroll hook
- jobFamily: billing
  url: https://sink/billing
";
    let watchers = load_job_family_watchers(content).unwrap();
    assert_eq!(watchers.len(), 2);
    assert_eq!(watchers[0].job_family(), "payroll");
    assert_eq!(watchers[0].url().as_str(), "http://sink/payroll");
    assert_eq!(watchers[0].request_body(), "pay-body");
    assert_eq!(watchers[0].description(), "payroll hook");
    assert_eq!(watchers[1].job_family(), "billing");
    assert_eq!(watchers[1].request_body(), "");

    // Stored then read: the same logical records come back.
    let mut repo = InMemoryJobFamilyWatcherRepository::new();
    bootstrap_job_family_watchers(&mut repo, watchers).unwrap();
    let payroll = repo.find_all_job_family_watchers_by_job_family("payroll");
    assert_eq!(payroll.len(), 1);
    assert_eq!(payroll[0].url().as_str(), "http://sink/payroll");
    assert_eq!(payroll[0].request_body(), "pay-body");
    assert_eq!(payroll[0].description(), "payroll hook");
}

#[test]
fn yaml_config_rejections() {
    assert!(matches!(
        load_job_family_watchers(": not : valid : yaml ["),
        Err(ConfigError::YamlSyntax(_))
    ));
    assert!(matches!(
        load_job_family_watchers("- jobFamily: payroll\n"),
        Err(ConfigError::MissingUrl)
    ));
    assert!(matches!(
        load_job_family_watchers("- url: http://sink/x\n"),
        Err(ConfigError::MissingJobFamily)
    ));
    // A field bound to a non-string does not count as present.
    assert!(matches!(
        load_job_family_watchers("- jobFamily: payroll\n  url: 5\n"),
        Err(ConfigError::MissingUrl)
    ));
    assert!(matches!(
        load_job_family_watchers("- jobFamily: payroll\n  url: httpx://sink\n"),
        Err(ConfigError::InvalidUrl(_))
    ));
    // An empty document set parses to nothing.
    assert_eq!(load_job_family_watchers("").unwrap().len(), 0);
}

#[test]
fn family_watcher_from_single_yaml_node() {
    let docs =
        yaml_rust2::YamlLoader::load_from_str("jobFamily: payroll\nurl: http://sink/f\n").unwrap();
    let watcher = family_watcher_from_yaml(&docs[0]).unwrap();
    assert_eq!(watcher.job_family(), "payroll");
    assert_eq!(watcher.url().as_str(), "http://sink/f");
    assert_eq!(watcher.request_body(), "");
    assert_eq!(watcher.description(), "");

    let docs = yaml_rust2::YamlLoader::load_from_str("url: http://sink/f\n").unwrap();
    assert!(matches!(
        family_watcher_from_yaml(&docs[0]),
        Err(ConfigError::MissingJobFamily)
    ));
}

