//! Package-orchestration engine for provisioning a development machine.
//!
//! A single declarative package list is installed on one of three
//! command-line package managers (`apt-get`, `yum`, `brew`), with
//! cross-manager name resolution, batched and retried command execution,
//! and a time-based freshness cache.
//!
//! The package managers offer no API, only a command-line surface, so all
//! outside work is pushed to the edge: [`manager::PackageManager::install`]
//! returns an [`engine::InstallRun`] state machine that names each command
//! to spawn, each backoff delay to wait, and each freshness record to
//! write, and a thin driver performs them and reports the outcomes back.
//! Everything the engine decides — ordering, validation, batching, the
//! retry budget — is proved over its transition function; the general laws
//! live in [`laws`].

pub mod catalog;
pub mod command;
pub mod config;
pub mod engine;
pub mod errors;
pub mod gpu;
pub mod laws;
pub mod manager;
pub mod menu;
pub mod package;
pub mod package_manager;
pub mod recipe;
pub mod recipes;
pub mod setup;
pub mod shell;
pub mod sys;
pub mod text;

use vstd::prelude::*;

verus! {

/// The number of packages handed to a single install invocation.
pub const BATCH_SIZE: usize = 10;

} // verus!
