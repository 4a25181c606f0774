//! The service layer: webhook creation and lookup, the watcher
//! lifecycle (creation, deadline timer, claim, per-trigger recording,
//! aggregate completion), family watcher fan-out resolution, and the
//! workload event decisions.

pub mod job_done_watchers;
pub mod job_family_watcher;
pub mod k8s_job_watcher;
pub mod webhooks;
