//! The control plane that provisions agents: who may ask for what, what the
//! server answers, and what it keeps.
pub mod build_laws;
pub mod builds;
pub mod command_laws;
pub mod commands;
pub mod distribution;
pub mod distribution_laws;
pub mod fly;
pub mod ids;
pub mod keys;
pub mod lifecycle_laws;
pub mod listener;
pub mod listener_laws;
pub mod metadata;
pub mod migration;
pub mod policy;
pub mod policy_laws;
pub mod provider_laws;
pub mod providers;
pub mod provision;
pub mod provision_laws;
pub mod queries;
pub mod query_laws;
pub mod reaper;
pub mod repetition_laws;
pub mod service;
pub mod state;
pub mod state_laws;
pub mod teardown;
pub mod types;
