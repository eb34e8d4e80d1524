//! Verified core of a proxy that bridges a cloud-hosted download service to
//! local disk storage for downstream media-management tools.
//!
//! The library holds the logic of the download orchestration pipeline: the
//! target planner that expands a remote file tree into local download targets,
//! the transfer producer's de-duplication against a seen set, the
//! orchestration worker's state machine, and the import and seeding watchers.
//! All I/O (the remote service's REST API, the local filesystem, timers and
//! task spawning) is left to a thin unverified shell that drives these
//! decision functions.

pub mod arr;
pub mod config;
pub mod orchestration;
pub mod producer;
pub mod putio;
pub mod text;
pub mod transfer;
