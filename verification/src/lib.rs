//! Per-repository deployment-configuration resolver.
//!
//! Given the structured configuration document checked into a project, the
//! library determines, for each named branch, which deployment mechanism
//! applies (a build-tool task or a playbook run) and which parameters that
//! mechanism needs, by merging repository-wide defaults with branch-specific
//! overrides.  Filesystem validation of candidate paths and task names is a
//! collaborator's job: the library lists the checks it needs
//! ([`config::checks_needed`]) and resolves against their reported outcomes
//! ([`config::RepoConfig::resolve`]).

pub mod branch;
pub mod checks;
pub mod config;
pub mod defaults;
pub mod doc;
pub mod error;
pub mod laws;
pub mod method;
pub mod tasks;
pub mod toml_read;
