//! Decisions of the workload event loop: the dedup-label guard, the
//! success filter, family derivation, and the per-event plan.  The
//! orchestrator subscription and the label patch stay outside; they
//! hand this module plain values.

use vstd::prelude::*;
use crate::job_name::{job_name_valid, JobName};
use crate::strutil::{last_index_of_char, str_eq};

verus! {

/// One condition of a workload's status.
#[derive(Debug)]
pub struct JobCondition {
    pub type_: String,
    pub status: String,
}

/// The mathematical shape of a condition.
pub struct JobConditionModel {
    pub type_: Seq<char>,
    pub status: Seq<char>,
}

impl View for JobCondition {
    type V = JobConditionModel;

    open spec fn view(&self) -> JobConditionModel {
        JobConditionModel { type_: self.type_@, status: self.status@ }
    }
}

/// What the event loop reads from a workload object it received: the
/// name, the labels, and the status conditions, each absent when the
/// orchestrator omitted it.
#[derive(Debug)]
pub struct JobUpdate {
    pub name: Option<String>,
    pub labels: Vec<(String, String)>,
    pub conditions: Option<Vec<JobCondition>>,
}

/// The label key the loop sets after a fan-out, and checks before one.
pub fn k8s_webhooks_called_label() -> (r: &'static str)
    ensures
        r@ == "app.k8s.job.webhooks/webhooks-called"@,
{
    "app.k8s.job.webhooks/webhooks-called"
}

/// The dedup guard holds: some label binds the dedup key to `"true"`.
pub open spec fn spec_already_scanned(labels: Seq<(String, String)>) -> bool {
    exists|i: int|
        0 <= i < labels.len() && (#[trigger] labels[i]).0@
            == "app.k8s.job.webhooks/webhooks-called"@ && labels[i].1@ == "true"@
}

/// True when the workload's labels carry the dedup marker, meaning its
/// webhooks were already called.
pub fn is_already_scanned_job(job_labels: &Vec<(String, String)>) -> (r: bool)
    ensures
        r == spec_already_scanned(job_labels@),
{
    let n = job_labels.len();
    let mut i: usize = 0;
    while i < n
        invariant
            i <= n,
            n == job_labels@.len(),
            forall|k: int|
                0 <= k < i ==> !((#[trigger] job_labels@[k]).0@
                    == "app.k8s.job.webhooks/webhooks-called"@ && job_labels@[k].1@ == "true"@),
        decreases n - i,
    {
        if str_eq(job_labels[i].0.as_str(), k8s_webhooks_called_label())
            && str_eq(job_labels[i].1.as_str(), "true") {
            return true;
        }
        i = i + 1;
    }
    false
}

/// The success filter holds: the last condition is `Complete` with
/// status `"True"`.
pub open spec fn spec_successfully_completed(conditions: Option<Seq<JobConditionModel>>) -> bool {
    match conditions {
        Some(cs) => cs.len() > 0 && cs.last().type_ == "Complete"@ && cs.last().status == "True"@,
        None => false,
    }
}

/// True when the workload completed successfully: its latest condition
/// has type `Complete` and status `"True"`.
pub fn is_successfully_completed_job(conditions: &Option<Vec<JobCondition>>) -> (r: bool)
    ensures
        r == spec_successfully_completed(
            match conditions {
                Some(cs) => Some(cs@.map_values(|c: JobCondition| c@)),
                None => None,
            },
        ),
{
    match conditions {
        None => false,
        Some(cs) => {
            let n = cs.len();
            if n == 0 {
                return false;
            }
            let last = &cs[n - 1];
            proof {
                assert(cs@.map_values(|c: JobCondition| c@).last() == cs@[n - 1].view());
            }
            str_eq(last.type_.as_str(), "Complete") && str_eq(last.status.as_str(), "True")
        },
    }
}

/// `i` is the position of the last `-` in `s`.
pub open spec fn last_dash_at(s: Seq<char>, i: int) -> bool {
    &&& 0 <= i < s.len()
    &&& s[i] == '-'
    &&& forall|k: int| i < k < s.len() ==> s[k] != '-'
}

/// The family a workload name belongs to: everything before the last
/// `-`.  A name without `-` belongs to no family.
pub fn extract_cronjob_name_from_job_name(job_name: &str) -> (r: Option<String>)
    ensures
        (r is Some) <==> exists|i: int| 0 <= i < job_name@.len() && job_name@[i] == '-',
        r matches Some(f) ==> exists|i: int|
            #[trigger] last_dash_at(job_name@, i) && f@ == job_name@.subrange(0, i),
{
    match last_index_of_char(job_name, '-') {
        Some(i) => {
            let f = job_name.substring_char(0, i);
            proof {
                assert(last_dash_at(job_name@, i as int));
            }
            Some(f.to_owned())
        },
        None => None,
    }
}

/// What the event loop should do with one received workload object.
#[derive(Debug)]
pub enum JobEventAction {
    /// Nothing: already handled, no name, no status, invalid name, or
    /// not successfully completed.
    Skip,
    /// Run the fan-out for `job_name` and the family fan-out for
    /// `job_family` when there is one, then set the dedup label.
    Notify { job_name: JobName, job_family: Option<String> },
}

/// Decides the plan for one workload object: skip when the dedup label
/// is set, the name or status is missing, the name is invalid, or the
/// workload did not complete successfully; otherwise notify, with the
/// family derived from the name.
pub fn plan_job_event(job_update: &JobUpdate) -> (r: JobEventAction)
    ensures
        spec_already_scanned(job_update.labels@) ==> r is Skip,
        r matches JobEventAction::Notify { job_name, job_family } ==> !spec_already_scanned(
            job_update.labels@,
        ),
        r matches JobEventAction::Notify { job_name, job_family } ==> (job_update.name matches Some(
            n,
        ) && job_name@ == n@ && job_name_valid(n@)),
        r matches JobEventAction::Notify { job_name, job_family } ==> (
        job_update.conditions matches Some(cs) && spec_successfully_completed(
            Some(cs@.map_values(|c: JobCondition| c@)),
        )),
        r matches JobEventAction::Notify { job_name, job_family } ==> (job_family matches Some(f)
            ==> exists|i: int|
            #[trigger] last_dash_at(job_name@, i) && f@ == job_name@.subrange(0, i)),
        r matches JobEventAction::Notify { job_name, job_family } ==> ((job_family is Some)
            <==> exists|i: int| 0 <= i < job_name@.len() && job_name@[i] == '-'),
        (r is Skip) <==> (spec_already_scanned(job_update.labels@) || job_update.name is None
            || (job_update.name matches Some(n) && !job_name_valid(n@))
            || !spec_successfully_completed(
            match job_update.conditions {
                Some(cs) => Some(cs@.map_values(|c: JobCondition| c@)),
                None => None,
            },
        )),
{
    if is_already_scanned_job(&job_update.labels) {
        return JobEventAction::Skip;
    }
    let name = match &job_update.name {
        Some(n) => n,
        None => { return JobEventAction::Skip },
    };
    if !is_successfully_completed_job(&job_update.conditions) {
        return JobEventAction::Skip;
    }
    let job_name = match JobName::new(name.as_str()) {
        Ok(j) => j,
        Err(_) => { return JobEventAction::Skip },
    };
    let job_family = extract_cronjob_name_from_job_name(job_name.as_str());
    JobEventAction::Notify { job_name, job_family }
}

} // verus!
