//! Sample data served instead of GitHub's when the application runs in
//! development mode, so the interface can be used without an account.
use vstd::prelude::*;
use crate::auth::AppState;
use crate::models::{Issue, PullRequest, Repo, SecurityAlert};
use crate::timestamp::Timestamp;

verus! {

/// The instant `secs` seconds after the epoch (within years 1970–9999).
fn at(secs: i64) -> (r: Timestamp)
    requires
        0 <= secs <= 253402300799,
    ensures
        r.spec_secs() == secs && r.spec_nanos() == 0,
{
    Timestamp::from_unix(secs, 0).unwrap()
}

/// Signs in as "octocat" without any GitHub exchange.
pub fn restore_session(state: &mut AppState) -> (r: Option<String>)
    ensures
        final(state).token matches Some(t) && t@ == "mock-token-dev"@,
        final(state).username matches Some(u) && u@ == "octocat"@,
        r matches Some(u) && u@ == "octocat"@,
        final(state).client == old(state).client,
        final(state).active_account_id == old(state).active_account_id,
        final(state).accounts == old(state).accounts,
{
    state.token = Some(String::from_str("mock-token-dev"));
    state.username = Some(String::from_str("octocat"));
    Some(String::from_str("octocat"))
}

/// Development mode is on.
pub fn get_dev_mode() -> (r: bool)
    ensures
        r,
{
    true
}

/// Three sample repositories of "octocat".
pub fn list_repos() -> (r: Vec<Repo>)
    ensures
        r@.len() == 3,
        r@[0].id == 1296269 &&
            r@[0].name@ == "Hello-World"@ &&
            r@[0].full_name@ == "octocat/Hello-World"@ &&
            r@[0].owner@ == "octocat"@ &&
            r@[0].description.deep_view() == Some("My first repository on GitHub!"@) &&
            !r@[0].private &&
            r@[0].html_url@ == "https://github.com/octocat/Hello-World"@ &&
            r@[0].open_issues_count == 5,
        r@[1].id == 1300192 &&
            r@[1].name@ == "Spoon-Knife"@ &&
            r@[1].full_name@ == "octocat/Spoon-Knife"@ &&
            r@[1].owner@ == "octocat"@ &&
            r@[1].description.deep_view() == Some("This repo is for demonstration purposes only."@) &&
            !r@[1].private &&
            r@[1].html_url@ == "https://github.com/octocat/Spoon-Knife"@ &&
            r@[1].open_issues_count == 1843,
        r@[2].id == 1364490 &&
            r@[2].name@ == "linguist"@ &&
            r@[2].full_name@ == "octocat/linguist"@ &&
            r@[2].owner@ == "octocat"@ &&
            r@[2].description.deep_view() == Some("Language Savant. If your repository's language is wrong, send us a pull request!"@) &&
            !r@[2].private &&
            r@[2].html_url@ == "https://github.com/octocat/linguist"@ &&
            r@[2].open_issues_count == 12,
{
    vec![
        Repo {
            id: 1296269,
            name: String::from_str("Hello-World"),
            full_name: String::from_str("octocat/Hello-World"),
            owner: String::from_str("octocat"),
            description: Some(String::from_str("My first repository on GitHub!")),
            private: false,
            html_url: String::from_str("https://github.com/octocat/Hello-World"),
            open_issues_count: 5,
        },
        Repo {
            id: 1300192,
            name: String::from_str("Spoon-Knife"),
            full_name: String::from_str("octocat/Spoon-Knife"),
            owner: String::from_str("octocat"),
            description: Some(String::from_str("This repo is for demonstration purposes only.")),
            private: false,
            html_url: String::from_str("https://github.com/octocat/Spoon-Knife"),
            open_issues_count: 1843,
        },
        Repo {
            id: 1364490,
            name: String::from_str("linguist"),
            full_name: String::from_str("octocat/linguist"),
            owner: String::from_str("octocat"),
            description: Some(String::from_str("Language Savant. If your repository's language is wrong, send us a pull request!")),
            private: false,
            html_url: String::from_str("https://github.com/octocat/linguist"),
            open_issues_count: 12,
        },
    ]
}

/// Five sample issues (four open, one closed).
pub fn fetch_issues() -> (r: Vec<Issue>)
    ensures
        r@.len() == 5,
        r@[0].number == 42 &&
            r@[0].title@ == "Fix null pointer dereference in auth module"@ &&
            r@[0].state@ == "open"@ &&
            r@[0].author@ == "monalisa"@ &&
            r@[0].labels.deep_view() == seq!["bug"@, "priority: high"@] &&
            r@[0].assignees.deep_view() == seq!["octocat"@] &&
            r@[0].created_at.spec_secs() == 1761988500 && r@[0].created_at.spec_nanos() == 0 &&
            r@[0].updated_at.spec_secs() == 1763217120 && r@[0].updated_at.spec_nanos() == 0 &&
            r@[0].closed_at is None &&
            r@[0].html_url@ == "https://github.com/octocat/Hello-World/issues/42"@ &&
            r@[0].body.deep_view() == Some("Observed a null pointer dereference when the auth token is expired."@) &&
            r@[0].comments == 0 &&
            r@[0].milestone is None,
        r@[1].number == 57 &&
            r@[1].title@ == "Add dark mode support"@ &&
            r@[1].state@ == "open"@ &&
            r@[1].author@ == "hubot"@ &&
            r@[1].labels.deep_view() == seq!["enhancement"@] &&
            r@[1].assignees@.len() == 0 &&
            r@[1].created_at.spec_secs() == 1764759600 && r@[1].created_at.spec_nanos() == 0 &&
            r@[1].updated_at.spec_secs() == 1765356300 && r@[1].updated_at.spec_nanos() == 0 &&
            r@[1].closed_at is None &&
            r@[1].html_url@ == "https://github.com/octocat/Hello-World/issues/57"@ &&
            r@[1].body.deep_view() == Some("Users have requested a dark mode toggle in the settings panel."@) &&
            r@[1].comments == 0 &&
            r@[1].milestone is None,
        r@[2].number == 63 &&
            r@[2].title@ == "Pagination breaks when repository has > 1000 issues"@ &&
            r@[2].state@ == "open"@ &&
            r@[2].author@ == "defunkt"@ &&
            r@[2].labels.deep_view() == seq!["bug"@, "good first issue"@] &&
            r@[2].assignees.deep_view() == seq!["monalisa"@] &&
            r@[2].created_at.spec_secs() == 1767802800 && r@[2].created_at.spec_nanos() == 0 &&
            r@[2].updated_at.spec_secs() == 1767952800 && r@[2].updated_at.spec_nanos() == 0 &&
            r@[2].closed_at is None &&
            r@[2].html_url@ == "https://github.com/octocat/Hello-World/issues/63"@ &&
            r@[2].body.deep_view() == Some("The cursor-based pagination implementation stops at page 10."@) &&
            r@[2].comments == 0 &&
            r@[2].milestone is None,
        r@[3].number == 71 &&
            r@[3].title@ == "Improve error messages for rate-limit responses"@ &&
            r@[3].state@ == "closed"@ &&
            r@[3].author@ == "octocat"@ &&
            r@[3].labels.deep_view() == seq!["enhancement"@, "documentation"@] &&
            r@[3].assignees@.len() == 0 &&
            r@[3].created_at.spec_secs() == 1768896300 && r@[3].created_at.spec_nanos() == 0 &&
            r@[3].updated_at.spec_secs() == 1769949000 && r@[3].updated_at.spec_nanos() == 0 &&
            (r@[3].closed_at matches Some(t) && t.spec_secs() == 1769949000 && t.spec_nanos() == 0) &&
            r@[3].html_url@ == "https://github.com/octocat/Hello-World/issues/71"@ &&
            r@[3].body.deep_view() == Some("Rate-limit errors currently surface raw HTTP 429 text to the user."@) &&
            r@[3].comments == 0 &&
            r@[3].milestone is None,
        r@[4].number == 78 &&
            r@[4].title@ == "CSV export omits assignees column"@ &&
            r@[4].state@ == "open"@ &&
            r@[4].author@ == "torvalds"@ &&
            r@[4].labels.deep_view() == seq!["bug"@] &&
            r@[4].assignees.deep_view() == seq!["octocat"@] &&
            r@[4].created_at.spec_secs() == 1771076700 && r@[4].created_at.spec_nanos() == 0 &&
            r@[4].updated_at.spec_secs() == 1771088400 && r@[4].updated_at.spec_nanos() == 0 &&
            r@[4].closed_at is None &&
            r@[4].html_url@ == "https://github.com/octocat/Hello-World/issues/78"@ &&
            r@[4].body.deep_view() == Some("When exporting issues to CSV the assignees column is empty for all rows."@) &&
            r@[4].comments == 0 &&
            r@[4].milestone is None,
{
    vec![
        Issue {
            number: 42,
            title: String::from_str("Fix null pointer dereference in auth module"),
            state: String::from_str("open"),
            author: String::from_str("monalisa"),
            labels: vec![String::from_str("bug"), String::from_str("priority: high")],
            assignees: vec![String::from_str("octocat")],
            created_at: at(1761988500),
            updated_at: at(1763217120),
            closed_at: None,
            html_url: String::from_str("https://github.com/octocat/Hello-World/issues/42"),
            body: Some(String::from_str("Observed a null pointer dereference when the auth token is expired.")),
            comments: 0,
            milestone: None,
        },
        Issue {
            number: 57,
            title: String::from_str("Add dark mode support"),
            state: String::from_str("open"),
            author: String::from_str("hubot"),
            labels: vec![String::from_str("enhancement")],
            assignees: Vec::new(),
            created_at: at(1764759600),
            updated_at: at(1765356300),
            closed_at: None,
            html_url: String::from_str("https://github.com/octocat/Hello-World/issues/57"),
            body: Some(String::from_str("Users have requested a dark mode toggle in the settings panel.")),
            comments: 0,
            milestone: None,
        },
        Issue {
            number: 63,
            title: String::from_str("Pagination breaks when repository has > 1000 issues"),
            state: String::from_str("open"),
            author: String::from_str("defunkt"),
            labels: vec![String::from_str("bug"), String::from_str("good first issue")],
            assignees: vec![String::from_str("monalisa")],
            created_at: at(1767802800),
            updated_at: at(1767952800),
            closed_at: None,
            html_url: String::from_str("https://github.com/octocat/Hello-World/issues/63"),
            body: Some(String::from_str("The cursor-based pagination implementation stops at page 10.")),
            comments: 0,
            milestone: None,
        },
        Issue {
            number: 71,
            title: String::from_str("Improve error messages for rate-limit responses"),
            state: String::from_str("closed"),
            author: String::from_str("octocat"),
            labels: vec![String::from_str("enhancement"), String::from_str("documentation")],
            assignees: Vec::new(),
            created_at: at(1768896300),
            updated_at: at(1769949000),
            closed_at: Some(at(1769949000)),
            html_url: String::from_str("https://github.com/octocat/Hello-World/issues/71"),
            body: Some(String::from_str("Rate-limit errors currently surface raw HTTP 429 text to the user.")),
            comments: 0,
            milestone: None,
        },
        Issue {
            number: 78,
            title: String::from_str("CSV export omits assignees column"),
            state: String::from_str("open"),
            author: String::from_str("torvalds"),
            labels: vec![String::from_str("bug")],
            assignees: vec![String::from_str("octocat")],
            created_at: at(1771076700),
            updated_at: at(1771088400),
            closed_at: None,
            html_url: String::from_str("https://github.com/octocat/Hello-World/issues/78"),
            body: Some(String::from_str("When exporting issues to CSV the assignees column is empty for all rows.")),
            comments: 0,
            milestone: None,
        },
    ]
}

/// Three sample pull requests (one merged, one open, one draft).
pub fn fetch_pulls() -> (r: Vec<PullRequest>)
    ensures
        r@.len() == 3,
        r@[0].number == 101 &&
            r@[0].title@ == "feat: implement OAuth device flow"@ &&
            r@[0].state@ == "merged"@ &&
            r@[0].author@ == "octocat"@ &&
            r@[0].labels.deep_view() == seq!["feature"@] &&
            r@[0].assignees@.len() == 0 &&
            r@[0].reviewers.deep_view() == seq!["monalisa"@, "hubot"@] &&
            r@[0].head_branch@ == "feat/oauth-device-flow"@ &&
            r@[0].base_branch@ == "main"@ &&
            r@[0].created_at.spec_secs() == 1760090400 && r@[0].created_at.spec_nanos() == 0 &&
            r@[0].updated_at.spec_secs() == 1760968800 && r@[0].updated_at.spec_nanos() == 0 &&
            (r@[0].merged_at matches Some(t) && t.spec_secs() == 1760968800 && t.spec_nanos() == 0) &&
            (r@[0].closed_at matches Some(t) && t.spec_secs() == 1760968800 && t.spec_nanos() == 0) &&
            r@[0].html_url@ == "https://github.com/octocat/Hello-World/pull/101"@ &&
            !r@[0].draft &&
            r@[0].body.deep_view() == Some("Implements the GitHub OAuth Device Flow as per RFC 8628."@),
        r@[1].number == 115 &&
            r@[1].title@ == "fix: resolve memory leak in parser"@ &&
            r@[1].state@ == "open"@ &&
            r@[1].author@ == "defunkt"@ &&
            r@[1].labels.deep_view() == seq!["bug"@, "priority: high"@] &&
            r@[1].assignees@.len() == 0 &&
            r@[1].reviewers.deep_view() == seq!["octocat"@] &&
            r@[1].head_branch@ == "fix/parser-memory-leak"@ &&
            r@[1].base_branch@ == "main"@ &&
            r@[1].created_at.spec_secs() == 1769938200 && r@[1].created_at.spec_nanos() == 0 &&
            r@[1].updated_at.spec_secs() == 1771586100 && r@[1].updated_at.spec_nanos() == 0 &&
            r@[1].merged_at is None &&
            r@[1].closed_at is None &&
            r@[1].html_url@ == "https://github.com/octocat/Hello-World/pull/115"@ &&
            !r@[1].draft &&
            r@[1].body.deep_view() == Some("The Markdown parser was retaining references to stale AST nodes. This PR frees them on drop."@),
        r@[2].number == 122 &&
            r@[2].title@ == "chore: upgrade octocrab to 0.38 and fix breaking API changes"@ &&
            r@[2].state@ == "open"@ &&
            r@[2].author@ == "monalisa"@ &&
            r@[2].labels.deep_view() == seq!["dependencies"@] &&
            r@[2].assignees@.len() == 0 &&
            r@[2].reviewers@.len() == 0 &&
            r@[2].head_branch@ == "chore/octocrab-0.38"@ &&
            r@[2].base_branch@ == "main"@ &&
            r@[2].created_at.spec_secs() == 1772290800 && r@[2].created_at.spec_nanos() == 0 &&
            r@[2].updated_at.spec_secs() == 1772352000 && r@[2].updated_at.spec_nanos() == 0 &&
            r@[2].merged_at is None &&
            r@[2].closed_at is None &&
            r@[2].html_url@ == "https://github.com/octocat/Hello-World/pull/122"@ &&
            r@[2].draft &&
            r@[2].body.deep_view() == Some("Draft: still working through the API surface changes in the new version."@),
{
    vec![
        PullRequest {
            number: 101,
            title: String::from_str("feat: implement OAuth device flow"),
            state: String::from_str("merged"),
            author: String::from_str("octocat"),
            labels: vec![String::from_str("feature")],
            assignees: Vec::new(),
            reviewers: vec![String::from_str("monalisa"), String::from_str("hubot")],
            head_branch: String::from_str("feat/oauth-device-flow"),
            base_branch: String::from_str("main"),
            created_at: at(1760090400),
            updated_at: at(1760968800),
            merged_at: Some(at(1760968800)),
            closed_at: Some(at(1760968800)),
            html_url: String::from_str("https://github.com/octocat/Hello-World/pull/101"),
            draft: false,
            body: Some(String::from_str("Implements the GitHub OAuth Device Flow as per RFC 8628.")),
        },
        PullRequest {
            number: 115,
            title: String::from_str("fix: resolve memory leak in parser"),
            state: String::from_str("open"),
            author: String::from_str("defunkt"),
            labels: vec![String::from_str("bug"), String::from_str("priority: high")],
            assignees: Vec::new(),
            reviewers: vec![String::from_str("octocat")],
            head_branch: String::from_str("fix/parser-memory-leak"),
            base_branch: String::from_str("main"),
            created_at: at(1769938200),
            updated_at: at(1771586100),
            merged_at: None,
            closed_at: None,
            html_url: String::from_str("https://github.com/octocat/Hello-World/pull/115"),
            draft: false,
            body: Some(String::from_str("The Markdown parser was retaining references to stale AST nodes. This PR frees them on drop.")),
        },
        PullRequest {
            number: 122,
            title: String::from_str("chore: upgrade octocrab to 0.38 and fix breaking API changes"),
            state: String::from_str("open"),
            author: String::from_str("monalisa"),
            labels: vec![String::from_str("dependencies")],
            assignees: Vec::new(),
            reviewers: Vec::new(),
            head_branch: String::from_str("chore/octocrab-0.38"),
            base_branch: String::from_str("main"),
            created_at: at(1772290800),
            updated_at: at(1772352000),
            merged_at: None,
            closed_at: None,
            html_url: String::from_str("https://github.com/octocat/Hello-World/pull/122"),
            draft: true,
            body: Some(String::from_str("Draft: still working through the API surface changes in the new version.")),
        },
    ]
}

/// Two sample Dependabot alerts (one high, one critical).
pub fn fetch_security_alerts() -> (r: Vec<SecurityAlert>)
    ensures
        r@.len() == 2,
        r@[0].id == 1 &&
            r@[0].severity@ == "high"@ &&
            r@[0].summary@ == "lodash vulnerable to prototype pollution (CVE-2021-23337)"@ &&
            r@[0].description@ == "Versions of lodash prior to 4.17.21 are vulnerable to command injection via the template and bindAll functions."@ &&
            r@[0].package_name.deep_view() == Some("lodash"@) &&
            r@[0].vulnerable_version_range.deep_view() == Some("< 4.17.21"@) &&
            r@[0].patched_version.deep_view() == Some("4.17.21"@) &&
            r@[0].state@ == "open"@ &&
            r@[0].html_url@ == "https://github.com/octocat/Hello-World/security/dependabot/1"@ &&
            r@[0].created_at.spec_secs() == 1757937600 && r@[0].created_at.spec_nanos() == 0 &&
            r@[0].alert_type@ == "dependabot"@ &&
            r@[0].tool_name is None &&
            r@[0].location_path is None &&
            r@[0].cve_id is None &&
            r@[0].cwes@.len() == 0 &&
            r@[0].dismissed_reason is None &&
            r@[0].dismissed_comment is None,
        r@[1].id == 2 &&
            r@[1].severity@ == "critical"@ &&
            r@[1].summary@ == "follow-redirects improperly handles URLs (CVE-2024-28849)"@ &&
            r@[1].description@ == "follow-redirects before 1.15.6 allows a bypass of the no-auth redirect protection via a specially crafted URL."@ &&
            r@[1].package_name.deep_view() == Some("follow-redirects"@) &&
            r@[1].vulnerable_version_range.deep_view() == Some("< 1.15.6"@) &&
            r@[1].patched_version.deep_view() == Some("1.15.6"@) &&
            r@[1].state@ == "open"@ &&
            r@[1].html_url@ == "https://github.com/octocat/Hello-World/security/dependabot/2"@ &&
            r@[1].created_at.spec_secs() == 1768033800 && r@[1].created_at.spec_nanos() == 0 &&
            r@[1].alert_type@ == "dependabot"@ &&
            r@[1].tool_name is None &&
            r@[1].location_path is None &&
            r@[1].cve_id is None &&
            r@[1].cwes@.len() == 0 &&
            r@[1].dismissed_reason is None &&
            r@[1].dismissed_comment is None,
{
    vec![
        SecurityAlert {
            id: 1,
            severity: String::from_str("high"),
            summary: String::from_str("lodash vulnerable to prototype pollution (CVE-2021-23337)"),
            description: String::from_str("Versions of lodash prior to 4.17.21 are vulnerable to command injection via the template and bindAll functions."),
            package_name: Some(String::from_str("lodash")),
            vulnerable_version_range: Some(String::from_str("< 4.17.21")),
            patched_version: Some(String::from_str("4.17.21")),
            state: String::from_str("open"),
            html_url: String::from_str("https://github.com/octocat/Hello-World/security/dependabot/1"),
            created_at: at(1757937600),
            alert_type: String::from_str("dependabot"),
            tool_name: None,
            location_path: None,
            cve_id: None,
            cwes: Vec::new(),
            dismissed_reason: None,
            dismissed_comment: None,
        },
        SecurityAlert {
            id: 2,
            severity: String::from_str("critical"),
            summary: String::from_str("follow-redirects improperly handles URLs (CVE-2024-28849)"),
            description: String::from_str("follow-redirects before 1.15.6 allows a bypass of the no-auth redirect protection via a specially crafted URL."),
            package_name: Some(String::from_str("follow-redirects")),
            vulnerable_version_range: Some(String::from_str("< 1.15.6")),
            patched_version: Some(String::from_str("1.15.6")),
            state: String::from_str("open"),
            html_url: String::from_str("https://github.com/octocat/Hello-World/security/dependabot/2"),
            created_at: at(1768033800),
            alert_type: String::from_str("dependabot"),
            tool_name: None,
            location_path: None,
            cve_id: None,
            cwes: Vec::new(),
            dismissed_reason: None,
            dismissed_comment: None,
        },
    ]
}

} // verus!
