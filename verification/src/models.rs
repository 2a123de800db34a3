//! The records the application moves between GitHub, its views and its
//! exports.
use vstd::prelude::*;
use crate::timestamp::Timestamp;

verus! {

/// A single stored GitHub account (PAT or OAuth token).
#[derive(Debug, Clone)]
pub struct Account {
    /// Stable unique identifier (UUID v4).
    pub id: String,
    /// User-visible display name.
    pub label: String,
    /// Resolved GitHub username at the time the account was added.
    pub username: String,
}

/// An account as shown to the user, with whether it is the active one.
#[derive(Debug, Clone)]
pub struct AccountInfo {
    pub id: String,
    pub label: String,
    pub username: String,
    pub is_active: bool,
}

/// What a successful session restore reports.
#[derive(Debug)]
pub struct RestoreResult {
    pub username: String,
    pub accounts: Vec<AccountInfo>,
}

/// Data handed to the user when the device flow is started.
#[derive(Debug)]
pub struct DeviceFlowStart {
    pub user_code: String,
    pub verification_uri: String,
    pub device_code: String,
    pub expires_in: u64,
    pub interval: u64,
}

/// A repository visible to the authenticated user.
#[derive(Debug, Clone)]
pub struct Repo {
    pub id: u64,
    pub name: String,
    pub full_name: String,
    pub owner: String,
    pub description: Option<String>,
    pub private: bool,
    pub html_url: String,
    pub open_issues_count: u32,
}

/// An issue of a repository.
#[derive(Debug, Clone)]
pub struct Issue {
    pub number: u64,
    pub title: String,
    pub state: String,
    pub author: String,
    pub labels: Vec<String>,
    pub assignees: Vec<String>,
    pub created_at: Timestamp,
    pub updated_at: Timestamp,
    pub closed_at: Option<Timestamp>,
    pub html_url: String,
    pub body: Option<String>,
    pub comments: u32,
    pub milestone: Option<String>,
}

/// A pull request of a repository.
#[derive(Debug, Clone)]
pub struct PullRequest {
    pub number: u64,
    pub title: String,
    pub state: String,
    pub author: String,
    pub labels: Vec<String>,
    pub assignees: Vec<String>,
    pub reviewers: Vec<String>,
    pub head_branch: String,
    pub base_branch: String,
    pub created_at: Timestamp,
    pub updated_at: Timestamp,
    pub merged_at: Option<Timestamp>,
    pub closed_at: Option<Timestamp>,
    pub html_url: String,
    pub draft: bool,
    pub body: Option<String>,
}

/// A Dependabot or code-scanning alert. The advisory's CVSS score, a
/// floating-point number, is carried beside this record by the application.
#[derive(Debug, Clone)]
pub struct SecurityAlert {
    pub id: u64,
    pub severity: String,
    pub summary: String,
    pub description: String,
    pub package_name: Option<String>,
    pub vulnerable_version_range: Option<String>,
    pub patched_version: Option<String>,
    pub state: String,
    pub html_url: String,
    pub created_at: Timestamp,
    pub alert_type: String,
    pub tool_name: Option<String>,
    pub location_path: Option<String>,
    pub cve_id: Option<String>,
    pub cwes: Vec<String>,
    pub dismissed_reason: Option<String>,
    pub dismissed_comment: Option<String>,
}

/// Diff statistics of one pull request.
#[derive(Debug, Clone)]
pub struct PullDetail {
    pub number: u64,
    pub additions: u64,
    pub deletions: u64,
    pub changed_files: u64,
    pub mergeable: Option<bool>,
    pub mergeable_state: Option<String>,
}

/// A GitHub Actions workflow run.
#[derive(Debug, Clone)]
pub struct WorkflowRun {
    pub id: u64,
    pub name: String,
    pub head_branch: Option<String>,
    pub run_number: u64,
    pub event: String,
    pub status: String,
    pub conclusion: Option<String>,
    pub actor_login: String,
    pub created_at: String,
    pub run_started_at: Option<String>,
    pub html_url: String,
    pub workflow_id: u64,
}

/// A repository the user chose to follow.
#[derive(Debug, Clone)]
pub struct TrackedRepo {
    pub full_name: String,
    pub owner: String,
    pub name: String,
}

/// Filter and search parameters for listing issues and pull requests.
#[derive(Debug, Clone)]
pub struct FilterParams {
    /// Filter by state: "open", "closed", "all"
    pub state: Option<String>,
    /// Filter by label name
    pub label: Option<String>,
    /// Free-text search query
    pub search: Option<String>,
    /// Sort field: "created", "updated", "comments"
    pub sort: Option<String>,
    /// Sort direction: "asc" or "desc"
    pub direction: Option<String>,
    /// Page number (1-based)
    pub page: Option<u32>,
    /// Items per page (max 100)
    pub per_page: Option<u8>,
}

/// The file formats data can be exported to.
#[derive(Debug, Clone, Copy, PartialEq, Eq, Structural)]
pub enum ExportFormat {
    Csv,
    Pdf,
}

} // verus!
