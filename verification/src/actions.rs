//! GitHub Actions workflow runs: the request path and the run records made
//! from the reply.
use vstd::prelude::*;
use crate::models::WorkflowRun;

verus! {

/// The user who triggered a run.
#[derive(Debug)]
pub struct RawActor {
    pub login: String,
}

/// A workflow run as the REST API reports it.
#[derive(Debug)]
pub struct RawWorkflowRun {
    pub id: u64,
    pub name: Option<String>,
    pub head_branch: Option<String>,
    pub run_number: u64,
    pub event: String,
    pub status: Option<String>,
    pub conclusion: Option<String>,
    pub actor: Option<RawActor>,
    pub created_at: String,
    pub run_started_at: Option<String>,
    pub html_url: String,
    pub workflow_id: u64,
}

/// The path listing the 30 most recent runs of a repository (first page).
pub fn workflow_runs_path(owner: &str, repo: &str) -> (r: String)
    ensures
        r@ == "/repos/"@ + owner@ + "/"@ + repo@ + "/actions/runs?per_page=30&page=1"@,
{
    let mut url = String::from_str("/repos/");
    url.append(owner);
    url.append("/");
    url.append(repo);
    url.append("/actions/runs?per_page=30&page=1");
    url
}

pub open spec fn text_or_empty(o: Option<String>) -> Seq<char> {
    match o {
        Some(s) => s@,
        None => seq![],
    }
}

/// A run record from a reply item: absent name, status and actor become
/// empty texts; everything else is kept.
pub open spec fn run_from(r: WorkflowRun, raw: RawWorkflowRun) -> bool {
    &&& r.id == raw.id
    &&& r.name@ == text_or_empty(raw.name)
    &&& r.head_branch == raw.head_branch
    &&& r.run_number == raw.run_number
    &&& r.event == raw.event
    &&& r.status@ == text_or_empty(raw.status)
    &&& r.conclusion == raw.conclusion
    &&& r.actor_login@ == match raw.actor { Some(a) => a.login@, None => seq![] }
    &&& r.created_at == raw.created_at
    &&& r.run_started_at == raw.run_started_at
    &&& r.html_url == raw.html_url
    &&& r.workflow_id == raw.workflow_id
}

/// A workflow run record keeps the reply's values: an absent name or status
/// empty, the actor's login (else empty), and the id, branch, run number,
/// event, conclusion, times, link and workflow id as reported.
pub proof fn run_keeps_reply_fields(r: WorkflowRun, raw: RawWorkflowRun)
    requires
        run_from(r, raw),
    ensures
        r.id == raw.id,
        r.name@ == match raw.name { Some(t) => t@, None => Seq::<char>::empty() },
        r.head_branch == raw.head_branch,
        r.run_number == raw.run_number,
        r.event == raw.event,
        r.status@ == match raw.status { Some(t) => t@, None => Seq::<char>::empty() },
        r.conclusion == raw.conclusion,
        r.actor_login@ == match raw.actor { Some(a) => a.login@, None => Seq::<char>::empty() },
        r.created_at == raw.created_at,
        r.run_started_at == raw.run_started_at,
        r.html_url == raw.html_url,
        r.workflow_id == raw.workflow_id,
{
}

fn take_text(o: Option<String>) -> (r: String)
    ensures
        r@ == text_or_empty(o),
{
    match o {
        Some(s) => s,
        None => String::new(),
    }
}

/// The runs of a reply, newest first as GitHub sends them.
pub fn workflow_runs_from_response(raw: Vec<RawWorkflowRun>) -> (r: Vec<WorkflowRun>)
    ensures
        r@.len() == raw@.len(),
        forall|k: int| 0 <= k < raw@.len() ==> run_from(#[trigger] r@[k], raw@[k]),
{
    let ghost all = raw@;
    let mut out: Vec<WorkflowRun> = Vec::new();
    for x in it: raw.into_iter()
        invariant
            it.seq() == all,
            out@.len() == it.index(),
            forall|k: int| 0 <= k < it.index() ==> run_from(#[trigger] out@[k], all[k]),
    {
        let ghost gx = x;
        let actor_login = match x.actor {
            Some(a) => a.login,
            None => String::new(),
        };
        let run = WorkflowRun {
            id: x.id,
            name: take_text(x.name),
            head_branch: x.head_branch,
            run_number: x.run_number,
            event: x.event,
            status: take_text(x.status),
            conclusion: x.conclusion,
            actor_login,
            created_at: x.created_at,
            run_started_at: x.run_started_at,
            html_url: x.html_url,
            workflow_id: x.workflow_id,
        };
        proof { assert(run_from(run, gx)); }
        out.push(run);
    }
    out
}

} // verus!
