//! Listing requests and replies for repositories, issues and pull requests.
//!
//! The application sends the requests with octocrab and hands the replies
//! over as the plain records below; the functions here decide the request
//! parameters and turn replies into the application's records.
use vstd::prelude::*;
use crate::models::{FilterParams, Issue, PullDetail, PullRequest, Repo};
use crate::text::text_eq;
use crate::timestamp::Timestamp;

verus! {

/// Which items a listing returns by state.
#[derive(Debug, Clone, Copy, PartialEq, Eq, Structural)]
pub enum StateFilter {
    Open,
    Closed,
    All,
}

/// How issues are sorted.
#[derive(Debug, Clone, Copy, PartialEq, Eq, Structural)]
pub enum IssueSort {
    Created,
    Updated,
    Comments,
}

/// How pull requests are sorted.
#[derive(Debug, Clone, Copy, PartialEq, Eq, Structural)]
pub enum PullSort {
    Created,
    Updated,
    Popularity,
    LongRunning,
}

/// Sort direction.
#[derive(Debug, Clone, Copy, PartialEq, Eq, Structural)]
pub enum SortDirection {
    Ascending,
    Descending,
}

/// The parameters of an issue listing request; `None` leaves GitHub's default.
#[derive(Debug)]
pub struct IssueQuery {
    pub state: Option<StateFilter>,
    pub labels: Vec<String>,
    pub sort: Option<IssueSort>,
    pub direction: Option<SortDirection>,
    pub per_page: Option<u8>,
    pub page: Option<u32>,
}

/// The parameters of a pull request listing request.
#[derive(Debug)]
pub struct PullQuery {
    pub state: Option<StateFilter>,
    pub sort: Option<PullSort>,
    pub direction: Option<SortDirection>,
    pub per_page: Option<u8>,
    pub page: Option<u32>,
}

/// `"closed"` and `"all"` select those; anything else selects open items.
pub open spec fn state_choice(s: Seq<char>) -> StateFilter {
    if s == "closed"@ { StateFilter::Closed } else if s == "all"@ { StateFilter::All } else { StateFilter::Open }
}

/// `"updated"` and `"comments"` select those; anything else sorts by creation.
pub open spec fn issue_sort_choice(s: Seq<char>) -> IssueSort {
    if s == "updated"@ { IssueSort::Updated } else if s == "comments"@ { IssueSort::Comments } else { IssueSort::Created }
}

/// `"updated"`, `"popularity"` and `"long-running"` select those; anything
/// else sorts by creation.
pub open spec fn pull_sort_choice(s: Seq<char>) -> PullSort {
    if s == "updated"@ {
        PullSort::Updated
    } else if s == "popularity"@ {
        PullSort::Popularity
    } else if s == "long-running"@ {
        PullSort::LongRunning
    } else {
        PullSort::Created
    }
}

/// `"asc"` sorts ascending; anything else descending.
pub open spec fn direction_choice(s: Seq<char>) -> SortDirection {
    if s == "asc"@ { SortDirection::Ascending } else { SortDirection::Descending }
}

pub open spec fn state_param(o: Option<String>) -> Option<StateFilter> {
    match o { Some(s) => Some(state_choice(s@)), None => None }
}

pub open spec fn issue_sort_param(o: Option<String>) -> Option<IssueSort> {
    match o { Some(s) => Some(issue_sort_choice(s@)), None => None }
}

pub open spec fn pull_sort_param(o: Option<String>) -> Option<PullSort> {
    match o { Some(s) => Some(pull_sort_choice(s@)), None => None }
}

pub open spec fn direction_param(o: Option<String>) -> Option<SortDirection> {
    match o { Some(s) => Some(direction_choice(s@)), None => None }
}

/// The filter words select as GitHub's parameters name them: "closed" and
/// "all" the closed and all items (anything else, open ones); "updated" and
/// "comments" those issue sorts, "updated", "popularity" and "long-running"
/// those pull request sorts (anything else, by creation); "asc" ascending
/// (anything else, descending); an absent word leaves GitHub's default.
pub proof fn filter_words_select_parameters(word: Option<String>)
    ensures
        word is None ==> state_param(word) is None && issue_sort_param(word) is None
            && pull_sort_param(word) is None && direction_param(word) is None,
        word matches Some(w) ==> {
            &&& state_param(word) == Some(if w@ == "closed"@ { StateFilter::Closed } else if w@ == "all"@ { StateFilter::All } else { StateFilter::Open })
            &&& issue_sort_param(word) == Some(if w@ == "updated"@ { IssueSort::Updated } else if w@ == "comments"@ { IssueSort::Comments } else { IssueSort::Created })
            &&& pull_sort_param(word) == Some(if w@ == "updated"@ { PullSort::Updated } else if w@ == "popularity"@ { PullSort::Popularity }
                else if w@ == "long-running"@ { PullSort::LongRunning } else { PullSort::Created })
            &&& direction_param(word) == Some(if w@ == "asc"@ { SortDirection::Ascending } else { SortDirection::Descending })
        },
{
}

fn choose_state(s: &Option<String>) -> (r: Option<StateFilter>)
    ensures
        r == state_param(*s),
{
    match s {
        Some(t) => Some(
            if text_eq(t.as_str(), "closed") {
                StateFilter::Closed
            } else if text_eq(t.as_str(), "all") {
                StateFilter::All
            } else {
                StateFilter::Open
            },
        ),
        None => None,
    }
}

fn choose_direction(s: &Option<String>) -> (r: Option<SortDirection>)
    ensures
        r == direction_param(*s),
{
    match s {
        Some(t) => Some(if text_eq(t.as_str(), "asc") { SortDirection::Ascending } else { SortDirection::Descending }),
        None => None,
    }
}

/// The issue listing parameters for `filters`: state, label, sort, direction
/// and paging as given, unknown words falling back as the choices say.
pub fn issue_query(filters: Option<&FilterParams>) -> (q: IssueQuery)
    ensures
        match filters {
            None => q.state is None && q.labels@.len() == 0 && q.sort is None && q.direction is None
                && q.per_page is None && q.page is None,
            Some(f) => {
                &&& q.state == state_param(f.state)
                &&& q.labels.deep_view() == match f.label { Some(l) => seq![l@], None => Seq::<Seq<char>>::empty() }
                &&& q.sort == issue_sort_param(f.sort)
                &&& q.direction == direction_param(f.direction)
                &&& q.per_page == f.per_page
                &&& q.page == f.page
            },
        },
{
    let mut labels: Vec<String> = Vec::new();
    match filters {
        None => {
            proof { assert(labels.deep_view() =~= Seq::<Seq<char>>::empty()); }
            IssueQuery { state: None, labels, sort: None, direction: None, per_page: None, page: None }
        }
        Some(f) => {
            match &f.label {
                Some(l) => {
                    labels.push(l.clone());
                    proof { assert(labels.deep_view() =~= seq![l@]); }
                }
                None => {
                    proof { assert(labels.deep_view() =~= Seq::<Seq<char>>::empty()); }
                }
            }
            let sort = match &f.sort {
                Some(t) => Some(
                    if text_eq(t.as_str(), "updated") {
                        IssueSort::Updated
                    } else if text_eq(t.as_str(), "comments") {
                        IssueSort::Comments
                    } else {
                        IssueSort::Created
                    },
                ),
                None => None,
            };
            IssueQuery {
                state: choose_state(&f.state),
                labels,
                sort,
                direction: choose_direction(&f.direction),
                per_page: f.per_page,
                page: f.page,
            }
        }
    }
}

/// The pull request listing parameters for `filters`.
pub fn pull_query(filters: Option<&FilterParams>) -> (q: PullQuery)
    ensures
        match filters {
            None => q.state is None && q.sort is None && q.direction is None && q.per_page is None && q.page is None,
            Some(f) => {
                &&& q.state == state_param(f.state)
                &&& q.sort == pull_sort_param(f.sort)
                &&& q.direction == direction_param(f.direction)
                &&& q.per_page == f.per_page
                &&& q.page == f.page
            },
        },
{
    match filters {
        None => PullQuery { state: None, sort: None, direction: None, per_page: None, page: None },
        Some(f) => {
            let sort = match &f.sort {
                Some(t) => Some(
                    if text_eq(t.as_str(), "updated") {
                        PullSort::Updated
                    } else if text_eq(t.as_str(), "popularity") {
                        PullSort::Popularity
                    } else if text_eq(t.as_str(), "long-running") {
                        PullSort::LongRunning
                    } else {
                        PullSort::Created
                    },
                ),
                None => None,
            };
            PullQuery {
                state: choose_state(&f.state),
                sort,
                direction: choose_direction(&f.direction),
                per_page: f.per_page,
                page: f.page,
            }
        }
    }
}

/// The text of an optional value, empty when absent (`unwrap_or_default`).
pub open spec fn text_or_empty(o: Option<String>) -> Seq<char> {
    match o {
        Some(s) => s@,
        None => seq![],
    }
}

fn take_text(o: Option<String>) -> (r: String)
    ensures
        r@ == text_or_empty(o),
        o matches Some(s) ==> r == s,
{
    match o {
        Some(s) => s,
        None => String::new(),
    }
}

fn take_list(o: Option<Vec<String>>) -> (r: Vec<String>)
    ensures
        r@ == match o { Some(v) => v@, None => Seq::<String>::empty() },
{
    match o {
        Some(v) => v,
        None => Vec::new(),
    }
}

/// A repository as the listing endpoint reports it.
#[derive(Debug)]
pub struct RawRepo {
    pub id: u64,
    pub name: String,
    pub full_name: Option<String>,
    pub owner_login: Option<String>,
    pub description: Option<String>,
    pub private: Option<bool>,
    pub html_url: Option<String>,
    pub open_issues_count: Option<u32>,
}

/// A repository record taken from a reply, absent texts left empty, absent
/// flags false and an absent count zero.
pub open spec fn repo_from(r: Repo, raw: RawRepo) -> bool {
    &&& r.id == raw.id
    &&& r.name == raw.name
    &&& r.full_name@ == text_or_empty(raw.full_name)
    &&& r.owner@ == text_or_empty(raw.owner_login)
    &&& r.description == raw.description
    &&& r.private == match raw.private { Some(b) => b, None => false }
    &&& r.html_url@ == text_or_empty(raw.html_url)
    &&& r.open_issues_count == match raw.open_issues_count { Some(n) => n, None => 0 }
}

/// The repositories of a listing reply, in order.
pub fn repos_from_response(raw: Vec<RawRepo>) -> (r: Vec<Repo>)
    ensures
        r@.len() == raw@.len(),
        forall|k: int| 0 <= k < raw@.len() ==> repo_from(#[trigger] r@[k], raw@[k]),
{
    let ghost all = raw@;
    let mut out: Vec<Repo> = Vec::new();
    for x in it: raw.into_iter()
        invariant
            it.seq() == all,
            out@.len() == it.index(),
            forall|k: int| 0 <= k < it.index() ==> repo_from(#[trigger] out@[k], all[k]),
    {
        let ghost gx = x;
        let repo = Repo {
            id: x.id,
            name: x.name,
            full_name: take_text(x.full_name),
            owner: take_text(x.owner_login),
            description: x.description,
            private: match x.private { Some(b) => b, None => false },
            html_url: take_text(x.html_url),
            open_issues_count: match x.open_issues_count { Some(n) => n, None => 0 },
        };
        proof { assert(repo_from(repo, gx)); }
        out.push(repo);
    }
    out
}

/// An issue (or pull request, which the issues endpoint also lists) as the
/// listing endpoint reports it; `state` is the state's debug name.
#[derive(Debug)]
pub struct RawIssue {
    pub number: u64,
    pub title: String,
    pub state: String,
    pub author: String,
    pub labels: Vec<String>,
    pub assignees: Vec<String>,
    pub created_at: Timestamp,
    pub updated_at: Timestamp,
    pub closed_at: Option<Timestamp>,
    pub html_url: String,
    pub body: Option<String>,
    pub comments: u32,
    pub milestone: Option<String>,
    pub is_pull_request: bool,
}

/// The issue record carrying a reply item's fields.
pub open spec fn issue_of(r: RawIssue) -> Issue {
    Issue {
        number: r.number,
        title: r.title,
        state: r.state,
        author: r.author,
        labels: r.labels,
        assignees: r.assignees,
        created_at: r.created_at,
        updated_at: r.updated_at,
        closed_at: r.closed_at,
        html_url: r.html_url,
        body: r.body,
        comments: r.comments,
        milestone: r.milestone,
    }
}

/// The issues of a reply, in order, pull requests left out.
pub open spec fn issues_of(raw: Seq<RawIssue>) -> Seq<Issue>
    decreases raw.len(),
{
    if raw.len() == 0 {
        seq![]
    } else if raw.last().is_pull_request {
        issues_of(raw.drop_last())
    } else {
        issues_of(raw.drop_last()).push(issue_of(raw.last()))
    }
}

/// The issue record of a single issue reply (as GitHub returns when an
/// issue is created, closed or reopened).
pub fn issue_from_response(x: RawIssue) -> (r: Issue)
    ensures
        r == issue_of(x),
{
    Issue {
        number: x.number,
        title: x.title,
        state: x.state,
        author: x.author,
        labels: x.labels,
        assignees: x.assignees,
        created_at: x.created_at,
        updated_at: x.updated_at,
        closed_at: x.closed_at,
        html_url: x.html_url,
        body: x.body,
        comments: x.comments,
        milestone: x.milestone,
    }
}

/// The issues of an issue listing reply. GitHub's issues endpoint also
/// returns pull requests; those are filtered out.
pub fn issues_from_response(raw: Vec<RawIssue>) -> (r: Vec<Issue>)
    ensures
        r@ == issues_of(raw@),
{
    let ghost all = raw@;
    let mut out: Vec<Issue> = Vec::new();
    for x in it: raw.into_iter()
        invariant
            it.seq() == all,
            out@ == issues_of(all.take(it.index() as int)),
    {
        proof {
            assert(all.take(it.index() + 1).drop_last() =~= all.take(it.index() as int));
            assert(all.take(it.index() + 1).last() == x);
        }
        if !x.is_pull_request {
            out.push(issue_from_response(x));
        }
    }
    proof { assert(all.take(all.len() as int) =~= all); }
    out
}

/// No pull request that the issues endpoint lists ends up among the
/// issues, and every issue comes from an item of the reply.
pub proof fn issues_exclude_pull_requests(raw: Seq<RawIssue>)
    ensures
        issues_of(raw).len() <= raw.len(),
        forall|k: int| 0 <= k < issues_of(raw).len() ==> exists|j: int|
            0 <= j < raw.len() && !raw[j].is_pull_request && #[trigger] issues_of(raw)[k] == issue_of(raw[j]),
    decreases raw.len(),
{
    if raw.len() > 0 {
        let init = raw.drop_last();
        issues_exclude_pull_requests(init);
        assert forall|k: int| 0 <= k < issues_of(raw).len() implies exists|j: int|
            0 <= j < raw.len() && !raw[j].is_pull_request && #[trigger] issues_of(raw)[k] == issue_of(raw[j]) by {
            if k < issues_of(init).len() {
                let j = choose|j: int| 0 <= j < init.len() && !init[j].is_pull_request && #[trigger] issues_of(init)[k] == issue_of(init[j]);
                assert(raw[j] == init[j]);
            } else {
                assert(raw[raw.len() - 1] == raw.last());
            }
        }
    }
}

/// An issue made from a reply item carries the item's own values, field for
/// field: its number, title, state, author, labels, assignees, creation,
/// update and closing times, link, body, comment count and milestone.
pub proof fn issue_keeps_reply_fields(x: RawIssue)
    ensures
        issue_of(x).number == x.number,
        issue_of(x).title == x.title,
        issue_of(x).state == x.state,
        issue_of(x).author == x.author,
        issue_of(x).labels == x.labels,
        issue_of(x).assignees == x.assignees,
        issue_of(x).created_at == x.created_at,
        issue_of(x).updated_at == x.updated_at,
        issue_of(x).closed_at == x.closed_at,
        issue_of(x).html_url == x.html_url,
        issue_of(x).body == x.body,
        issue_of(x).comments == x.comments,
        issue_of(x).milestone == x.milestone,
{
}

/// Every issue of a listing reply is one of the reply's items that is not a
/// pull request, with that item's values field for field (its creation time
/// its creation time, its update time its update time, and so on).
pub proof fn listed_issues_keep_reply_fields(raw: Seq<RawIssue>)
    ensures
        forall|k: int| 0 <= k < issues_of(raw).len() ==> exists|j: int| {
            &&& 0 <= j < raw.len()
            &&& !raw[j].is_pull_request
            &&& #[trigger] issues_of(raw)[k].number == raw[j].number
            &&& issues_of(raw)[k].title == raw[j].title
            &&& issues_of(raw)[k].state == raw[j].state
            &&& issues_of(raw)[k].author == raw[j].author
            &&& issues_of(raw)[k].labels == raw[j].labels
            &&& issues_of(raw)[k].assignees == raw[j].assignees
            &&& issues_of(raw)[k].created_at == raw[j].created_at
            &&& issues_of(raw)[k].updated_at == raw[j].updated_at
            &&& issues_of(raw)[k].closed_at == raw[j].closed_at
            &&& issues_of(raw)[k].html_url == raw[j].html_url
            &&& issues_of(raw)[k].body == raw[j].body
            &&& issues_of(raw)[k].comments == raw[j].comments
            &&& issues_of(raw)[k].milestone == raw[j].milestone
        },
{
    issues_exclude_pull_requests(raw);
    assert forall|k: int| 0 <= k < issues_of(raw).len() implies exists|j: int| {
            &&& 0 <= j < raw.len()
            &&& !raw[j].is_pull_request
            &&& #[trigger] issues_of(raw)[k].number == raw[j].number
            &&& issues_of(raw)[k].title == raw[j].title
            &&& issues_of(raw)[k].state == raw[j].state
            &&& issues_of(raw)[k].author == raw[j].author
            &&& issues_of(raw)[k].labels == raw[j].labels
            &&& issues_of(raw)[k].assignees == raw[j].assignees
            &&& issues_of(raw)[k].created_at == raw[j].created_at
            &&& issues_of(raw)[k].updated_at == raw[j].updated_at
            &&& issues_of(raw)[k].closed_at == raw[j].closed_at
            &&& issues_of(raw)[k].html_url == raw[j].html_url
            &&& issues_of(raw)[k].body == raw[j].body
            &&& issues_of(raw)[k].comments == raw[j].comments
            &&& issues_of(raw)[k].milestone == raw[j].milestone
        } by {
        let j = choose|j: int| 0 <= j < raw.len() && !raw[j].is_pull_request && #[trigger] issues_of(raw)[k] == issue_of(raw[j]);
        issue_keeps_reply_fields(raw[j]);
    }
}

/// The issues of a reply are its items that are not pull requests, in the
/// reply's order, each made into an issue.
pub proof fn listed_issues_are_the_non_pull_items(raw: Seq<RawIssue>)
    ensures
        issues_of(raw) == raw.filter(|x: RawIssue| !x.is_pull_request).map_values(|x: RawIssue| issue_of(x)),
    decreases raw.len(),
{
    reveal(Seq::filter);
    if raw.len() > 0 {
        listed_issues_are_the_non_pull_items(raw.drop_last());
        let f = raw.drop_last().filter(|x: RawIssue| !x.is_pull_request);
        if !raw.last().is_pull_request {
            assert(f.push(raw.last()).map_values(|x: RawIssue| issue_of(x))
                =~= f.map_values(|x: RawIssue| issue_of(x)).push(issue_of(raw.last())));
        }
    } else {
        assert(raw.filter(|x: RawIssue| !x.is_pull_request).map_values(|x: RawIssue| issue_of(x)) =~= Seq::<Issue>::empty());
    }
}

/// A pull request as the listing endpoint reports it; `state` is the
/// state's debug name.
#[derive(Debug)]
pub struct RawPull {
    pub number: u64,
    pub title: Option<String>,
    pub state: Option<String>,
    pub author: Option<String>,
    pub labels: Option<Vec<String>>,
    pub assignees: Option<Vec<String>>,
    pub reviewers: Option<Vec<String>>,
    pub head_label: Option<String>,
    pub base_label: Option<String>,
    pub created_at: Option<Timestamp>,
    pub updated_at: Option<Timestamp>,
    pub merged_at: Option<Timestamp>,
    pub closed_at: Option<Timestamp>,
    pub html_url: Option<String>,
    pub draft: Option<bool>,
    pub body: Option<String>,
}

pub open spec fn list_or_empty(o: Option<Vec<String>>) -> Seq<String> {
    match o {
        Some(v) => v@,
        None => seq![],
    }
}

/// An absent time is the Unix epoch (chrono's default date-time).
pub open spec fn time_or_epoch(t: Timestamp, o: Option<Timestamp>) -> bool {
    match o {
        Some(x) => t == x,
        None => t.spec_secs() == 0 && t.spec_nanos() == 0,
    }
}

/// A pull request record taken from a reply: absent texts and lists empty,
/// an absent state `"unknown"`, absent times the Unix epoch, and an absent
/// draft flag false.
pub open spec fn pull_from(p: PullRequest, r: RawPull) -> bool {
    &&& p.number == r.number
    &&& p.title@ == text_or_empty(r.title)
    &&& p.state@ == match r.state { Some(s) => s@, None => "unknown"@ }
    &&& p.author@ == text_or_empty(r.author)
    &&& p.labels@ == list_or_empty(r.labels)
    &&& p.assignees@ == list_or_empty(r.assignees)
    &&& p.reviewers@ == list_or_empty(r.reviewers)
    &&& p.head_branch@ == text_or_empty(r.head_label)
    &&& p.base_branch@ == text_or_empty(r.base_label)
    &&& time_or_epoch(p.created_at, r.created_at)
    &&& time_or_epoch(p.updated_at, r.updated_at)
    &&& p.merged_at == r.merged_at
    &&& p.closed_at == r.closed_at
    &&& p.html_url@ == text_or_empty(r.html_url)
    &&& p.draft == match r.draft { Some(b) => b, None => false }
    &&& p.body == r.body
}

/// A pull request made from a reply item keeps the item's values: absent
/// texts and lists become empty, an absent state "unknown", absent creation
/// and update times the Unix epoch and an absent draft flag false, while the
/// merge and closing times are the reply's own, so a pull request the reply
/// does not call merged is never reported merged.
pub proof fn pull_keeps_reply_fields(p: PullRequest, r: RawPull)
    requires
        pull_from(p, r),
    ensures
        p.number == r.number,
        p.title@ == match r.title { Some(t) => t@, None => Seq::<char>::empty() },
        p.state@ == match r.state { Some(t) => t@, None => "unknown"@ },
        p.author@ == match r.author { Some(t) => t@, None => Seq::<char>::empty() },
        p.labels@ == match r.labels { Some(v) => v@, None => Seq::<String>::empty() },
        p.assignees@ == match r.assignees { Some(v) => v@, None => Seq::<String>::empty() },
        p.reviewers@ == match r.reviewers { Some(v) => v@, None => Seq::<String>::empty() },
        p.head_branch@ == match r.head_label { Some(t) => t@, None => Seq::<char>::empty() },
        p.base_branch@ == match r.base_label { Some(t) => t@, None => Seq::<char>::empty() },
        r.created_at matches Some(t) ==> p.created_at == t,
        r.created_at is None ==> p.created_at.spec_secs() == 0 && p.created_at.spec_nanos() == 0,
        r.updated_at matches Some(t) ==> p.updated_at == t,
        r.updated_at is None ==> p.updated_at.spec_secs() == 0 && p.updated_at.spec_nanos() == 0,
        p.merged_at == r.merged_at,
        r.merged_at is None ==> p.merged_at is None,
        p.closed_at == r.closed_at,
        p.html_url@ == match r.html_url { Some(t) => t@, None => Seq::<char>::empty() },
        p.draft == (r.draft == Some(true)),
        p.body == r.body,
{
}

/// A repository record keeps the reply's values: absent texts empty, an
/// absent private flag false and an absent count zero.
pub proof fn repo_keeps_reply_fields(r: Repo, raw: RawRepo)
    requires
        repo_from(r, raw),
    ensures
        r.id == raw.id,
        r.name == raw.name,
        r.full_name@ == match raw.full_name { Some(t) => t@, None => Seq::<char>::empty() },
        r.owner@ == match raw.owner_login { Some(t) => t@, None => Seq::<char>::empty() },
        r.description == raw.description,
        r.private == (raw.private == Some(true)),
        r.html_url@ == match raw.html_url { Some(t) => t@, None => Seq::<char>::empty() },
        r.open_issues_count == match raw.open_issues_count { Some(n) => n, None => 0 },
{
}

fn take_time(o: Option<Timestamp>) -> (r: Timestamp)
    ensures
        time_or_epoch(r, o),
{
    match o {
        Some(t) => t,
        None => Timestamp::unix_epoch(),
    }
}

/// The pull requests of a listing reply, in order.
pub fn pulls_from_response(raw: Vec<RawPull>) -> (r: Vec<PullRequest>)
    ensures
        r@.len() == raw@.len(),
        forall|k: int| 0 <= k < raw@.len() ==> pull_from(#[trigger] r@[k], raw@[k]),
{
    let ghost all = raw@;
    let mut out: Vec<PullRequest> = Vec::new();
    for x in it: raw.into_iter()
        invariant
            it.seq() == all,
            out@.len() == it.index(),
            forall|k: int| 0 <= k < it.index() ==> pull_from(#[trigger] out@[k], all[k]),
    {
        let ghost gx = x;
        let state = match x.state {
            Some(s) => s,
            None => String::from_str("unknown"),
        };
        let p = PullRequest {
            number: x.number,
            title: take_text(x.title),
            state,
            author: take_text(x.author),
            labels: take_list(x.labels),
            assignees: take_list(x.assignees),
            reviewers: take_list(x.reviewers),
            head_branch: take_text(x.head_label),
            base_branch: take_text(x.base_label),
            created_at: take_time(x.created_at),
            updated_at: take_time(x.updated_at),
            merged_at: x.merged_at,
            closed_at: x.closed_at,
            html_url: take_text(x.html_url),
            draft: match x.draft { Some(b) => b, None => false },
            body: x.body,
        };
        proof { assert(pull_from(p, gx)); }
        out.push(p);
    }
    out
}

/// The diff statistics the single pull request endpoint reports;
/// `mergeable_state` is the state's debug name.
#[derive(Debug)]
pub struct RawPullDetail {
    pub additions: Option<u64>,
    pub deletions: Option<u64>,
    pub changed_files: Option<u64>,
    pub mergeable: Option<bool>,
    pub mergeable_state: Option<String>,
}

/// The diff statistics of pull request `pull_number`, absent counts zero.
pub fn pull_detail_from_response(pull_number: u64, raw: RawPullDetail) -> (r: PullDetail)
    ensures
        r.number == pull_number,
        r.additions == match raw.additions { Some(n) => n, None => 0 },
        r.deletions == match raw.deletions { Some(n) => n, None => 0 },
        r.changed_files == match raw.changed_files { Some(n) => n, None => 0 },
        r.mergeable == raw.mergeable,
        r.mergeable_state == raw.mergeable_state,
{
    PullDetail {
        number: pull_number,
        additions: match raw.additions { Some(n) => n, None => 0 },
        deletions: match raw.deletions { Some(n) => n, None => 0 },
        changed_files: match raw.changed_files { Some(n) => n, None => 0 },
        mergeable: raw.mergeable,
        mergeable_state: raw.mergeable_state,
    }
}

} // verus!
