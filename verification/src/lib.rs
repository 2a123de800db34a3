//! Verified core of a desktop client for GitHub issues, pull requests,
//! security alerts and workflow runs.
pub mod actions;
pub mod auth;
pub mod commands;
pub mod csv_export;
pub mod device_flow;
pub mod github;
pub mod mock;
pub mod models;
pub mod pdf_export;
pub mod security;
pub mod text;
pub mod timestamp;
pub mod repo_lists;
