use github_export::actions::{workflow_runs_from_response, workflow_runs_path, RawActor, RawWorkflowRun};

#[test]
fn runs_path() {
    assert_eq!(workflow_runs_path("octocat", "Hello-World"), "/repos/octocat/Hello-World/actions/runs?per_page=30&page=1");
}

#[test]
fn runs_fill_defaults() {
    let runs = workflow_runs_from_response(vec![
        RawWorkflowRun {
            id: 1,
            name: Some("CI".to_string()),
            head_branch: Some("main".to_string()),
            run_number: 4,
            event: "push".to_string(),
            status: Some("completed".to_string()),
            conclusion: Some("success".to_string()),
            actor: Some(RawActor { login: "octocat".to_string() }),
            created_at: "2026-01-01T00:00:00Z".to_string(),
            run_started_at: Some("2026-01-01T00:00:05Z".to_string()),
            html_url: "https://x/1".to_string(),
            workflow_id: 77,
        },
        RawWorkflowRun {
            id: 2,
            name: None,
            head_branch: None,
            run_number: 5,
            event: "schedule".to_string(),
            status: None,
            conclusion: None,
            actor: None,
            created_at: "2026-01-02T00:00:00Z".to_string(),
            run_started_at: None,
            html_url: "https://x/2".to_string(),
            workflow_id: 77,
        },
    ]);
    assert_eq!(runs.len(), 2);
    assert_eq!((runs[0].name.as_str(), runs[0].status.as_str(), runs[0].actor_login.as_str()), ("CI", "completed", "octocat"));
    assert_eq!((runs[1].name.as_str(), runs[1].status.as_str(), runs[1].actor_login.as_str()), ("", "", ""));
    assert_eq!((runs[1].run_number, runs[1].workflow_id), (5, 77));
}
