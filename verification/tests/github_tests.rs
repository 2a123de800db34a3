use github_export::github::{
    issue_from_response, issue_query, issues_from_response, pull_detail_from_response, pull_query, pulls_from_response,
    repos_from_response, IssueSort, PullSort, RawIssue, RawPull, RawPullDetail, RawRepo, SortDirection,
    StateFilter,
};
use github_export::models::FilterParams;
use github_export::timestamp::Timestamp;

fn filters(state: &str, sort: &str, direction: &str) -> FilterParams {
    FilterParams {
        state: Some(state.to_string()),
        label: Some("bug".to_string()),
        search: Some("crash".to_string()),
        sort: Some(sort.to_string()),
        direction: Some(direction.to_string()),
        page: Some(2),
        per_page: Some(50),
    }
}

#[test]
fn issue_query_without_filters_is_empty() {
    let q = issue_query(None);
    assert!(q.state.is_none() && q.labels.is_empty() && q.sort.is_none());
    assert!(q.direction.is_none() && q.per_page.is_none() && q.page.is_none());
}

#[test]
fn issue_query_maps_filters() {
    let q = issue_query(Some(&filters("closed", "comments", "asc")));
    assert_eq!(q.state, Some(StateFilter::Closed));
    assert_eq!(q.labels, vec!["bug".to_string()]);
    assert_eq!(q.sort, Some(IssueSort::Comments));
    assert_eq!(q.direction, Some(SortDirection::Ascending));
    assert_eq!((q.per_page, q.page), (Some(50), Some(2)));
    let q = issue_query(Some(&filters("weird", "whatever", "down")));
    assert_eq!(q.state, Some(StateFilter::Open));
    assert_eq!(q.sort, Some(IssueSort::Created));
    assert_eq!(q.direction, Some(SortDirection::Descending));
    let q = issue_query(Some(&filters("all", "updated", "desc")));
    assert_eq!((q.state, q.sort), (Some(StateFilter::All), Some(IssueSort::Updated)));
}

#[test]
fn pull_query_maps_filters() {
    assert!(pull_query(None).state.is_none());
    assert_eq!(pull_query(Some(&filters("open", "popularity", "asc"))).sort, Some(PullSort::Popularity));
    assert_eq!(pull_query(Some(&filters("open", "long-running", "asc"))).sort, Some(PullSort::LongRunning));
    assert_eq!(pull_query(Some(&filters("open", "updated", "asc"))).sort, Some(PullSort::Updated));
    assert_eq!(pull_query(Some(&filters("open", "comments", "asc"))).sort, Some(PullSort::Created));
    let mut f = filters("all", "updated", "asc");
    f.sort = None;
    let q = pull_query(Some(&f));
    assert_eq!((q.state, q.sort, q.page), (Some(StateFilter::All), None, Some(2)));
}

#[test]
fn repos_fill_defaults() {
    let repos = repos_from_response(vec![
        RawRepo {
            id: 1,
            name: "Hello-World".to_string(),
            full_name: Some("octocat/Hello-World".to_string()),
            owner_login: Some("octocat".to_string()),
            description: Some("hi".to_string()),
            private: Some(true),
            html_url: Some("https://github.com/octocat/Hello-World".to_string()),
            open_issues_count: Some(5),
        },
        RawRepo {
            id: 2,
            name: "bare".to_string(),
            full_name: None,
            owner_login: None,
            description: None,
            private: None,
            html_url: None,
            open_issues_count: None,
        },
    ]);
    assert_eq!(repos.len(), 2);
    assert_eq!((repos[0].full_name.as_str(), repos[0].owner.as_str(), repos[0].private), ("octocat/Hello-World", "octocat", true));
    assert_eq!(repos[0].open_issues_count, 5);
    assert_eq!((repos[1].full_name.as_str(), repos[1].owner.as_str(), repos[1].html_url.as_str()), ("", "", ""));
    assert_eq!((repos[1].private, repos[1].open_issues_count), (false, 0));
}

fn raw_issue(number: u64, is_pull_request: bool) -> RawIssue {
    RawIssue {
        number,
        title: format!("item {number}"),
        state: "Open".to_string(),
        author: "monalisa".to_string(),
        labels: vec!["bug".to_string()],
        assignees: vec![],
        created_at: Timestamp::unix_epoch(),
        updated_at: Timestamp::unix_epoch(),
        closed_at: None,
        html_url: format!("https://x/{number}"),
        body: None,
        comments: 2,
        milestone: Some("v1".to_string()),
        is_pull_request,
    }
}

#[test]
fn issues_leave_pull_requests_out() {
    let issues = issues_from_response(vec![raw_issue(1, false), raw_issue(2, true), raw_issue(3, false)]);
    assert_eq!(issues.iter().map(|i| i.number).collect::<Vec<_>>(), vec![1, 3]);
    assert_eq!(issues[1].title, "item 3");
    assert_eq!(issues[0].milestone.as_deref(), Some("v1"));
    assert_eq!(issues[0].comments, 2);
    assert!(issues_from_response(vec![raw_issue(4, true)]).is_empty());
}

#[test]
fn single_issue_reply_keeps_its_fields() {
    let issue = issue_from_response(raw_issue(7, false));
    assert_eq!((issue.number, issue.title.as_str(), issue.state.as_str()), (7, "item 7", "Open"));
    assert_eq!((issue.author.as_str(), issue.comments), ("monalisa", 2));
    assert_eq!(issue.html_url, "https://x/7");
}

#[test]
fn pulls_fill_defaults() {
    let created = Timestamp::parse_rfc3339("2025-10-10T10:00:00Z").unwrap();
    let pulls = pulls_from_response(vec![
        RawPull {
            number: 101,
            title: Some("feat".to_string()),
            state: Some("Open".to_string()),
            author: Some("octocat".to_string()),
            labels: Some(vec!["feature".to_string()]),
            assignees: None,
            reviewers: Some(vec!["hubot".to_string()]),
            head_label: Some("octocat:feat".to_string()),
            base_label: Some("octocat:main".to_string()),
            created_at: Some(created),
            updated_at: None,
            merged_at: None,
            closed_at: None,
            html_url: Some("https://x/101".to_string()),
            draft: Some(true),
            body: Some("b".to_string()),
        },
        RawPull {
            number: 102,
            title: None,
            state: None,
            author: None,
            labels: None,
            assignees: None,
            reviewers: None,
            head_label: None,
            base_label: None,
            created_at: None,
            updated_at: None,
            merged_at: None,
            closed_at: None,
            html_url: None,
            draft: None,
            body: None,
        },
    ]);
    assert_eq!(pulls[0].created_at, created);
    assert_eq!(pulls[0].updated_at, Timestamp::unix_epoch());
    assert_eq!(pulls[0].reviewers, vec!["hubot".to_string()]);
    assert!(pulls[0].draft);
    assert_eq!((pulls[1].title.as_str(), pulls[1].state.as_str(), pulls[1].author.as_str()), ("", "unknown", ""));
    assert!(pulls[1].labels.is_empty() && !pulls[1].draft);
}

#[test]
fn pull_detail_defaults_counts_to_zero() {
    let d = pull_detail_from_response(
        9,
        RawPullDetail {
            additions: Some(10),
            deletions: None,
            changed_files: Some(3),
            mergeable: Some(true),
            mergeable_state: Some("Clean".to_string()),
        },
    );
    assert_eq!((d.number, d.additions, d.deletions, d.changed_files), (9, 10, 0, 3));
    assert_eq!(d.mergeable, Some(true));
    assert_eq!(d.mergeable_state.as_deref(), Some("Clean"));
}
