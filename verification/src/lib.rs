//! Release configuration resolution and repository URL modelling.
//!
//! Two independent components: a configuration resolver that folds
//! workspace-wide defaults, per-package overrides and run-time force-flags
//! into one effective configuration per package, and a repository URL model
//! that parses git remote URLs and builds host-aware links.

pub mod config;
pub mod document;
pub mod repo_url;
pub mod strutil;

pub use config::PackageConfig;
pub use repo_url::RepoUrl;
