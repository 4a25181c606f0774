//! Verified core of a job-completion webhook service.
//!
//! The library models workloads ("jobs") observed in a container
//! orchestrator.  Clients register webhooks and watchers; when a watched
//! job completes successfully, the service claims the matching watchers,
//! fans out HTTP calls to their trigger webhooks, records each call, and
//! reduces the results to an aggregate watcher status.  All decision
//! logic lives here with contracts; transport, storage backends and the
//! event loop plumbing stay outside.

pub mod api;
pub mod external;
pub mod http_url;
pub mod idempotency;
pub mod job_name;
pub mod models;
pub mod repository;
pub mod service;
pub mod setup;
pub mod strutil;
