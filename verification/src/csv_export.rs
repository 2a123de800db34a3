//! CSV export: the rows of the report, encoded by the `csv` crate.
//!
//! The records are built here; the `csv` crate turns them into bytes, which
//! the application writes to the chosen file.
use vstd::prelude::*;
use crate::models::{Issue, PullRequest, SecurityAlert, WorkflowRun};
use crate::text::{bool_text, bool_word, decimal, decimal_text, join_text, joined, or_text, text_or};
use crate::timestamp::chrono_rfc3339;

verus! {

/// A CSV writer of the csv crate writing into memory, built flexible so that
/// records of any width are written. Verus refuses to declare `csv::Writer`
/// itself (its parameter is bound by `std::io::Write`), so it is held here,
/// hidden; the records it has accepted are named below.
#[verifier::external_body]
pub struct CsvSink {
    inner: csv::Writer<Vec<u8>>,
}

/// An error of the csv crate.
#[verifier::external_type_specification]
#[verifier::external_body]
pub struct ExCsvError(csv::Error);

/// The records a csv writer into memory has accepted so far.
pub uninterp spec fn csv_accepted(w: CsvSink) -> Seq<Seq<Seq<char>>>;

/// Whether a field must be quoted: it holds the delimiter `,`, the quote
/// `"` or a line break (`\r` or `\n`).
pub open spec fn needs_quotes(field: Seq<char>) -> bool {
    exists|k: int| 0 <= k < field.len() && is_special(#[trigger] field[k])
}

pub open spec fn is_special(c: char) -> bool {
    c == ',' || c == '"' || c == '\r' || c == '\n'
}

/// The field with every quote character doubled.
pub open spec fn doubled_quotes(field: Seq<char>) -> Seq<char>
    decreases field.len(),
{
    if field.len() == 0 {
        seq![]
    } else if field.last() == '"' {
        doubled_quotes(field.drop_last()) + seq!['"', '"']
    } else {
        doubled_quotes(field.drop_last()).push(field.last())
    }
}

/// A field as written: in quotes, inner quotes doubled, when it needs them;
/// as it is otherwise.
pub open spec fn field_text(field: Seq<char>) -> Seq<char> {
    if needs_quotes(field) { seq!['"'] + doubled_quotes(field) + seq!['"'] } else { field }
}

/// The fields as written, separated by commas.
pub open spec fn fields_text(fields: Seq<Seq<char>>) -> Seq<char>
    decreases fields.len(),
{
    if fields.len() == 0 {
        seq![]
    } else if fields.len() == 1 {
        field_text(fields[0])
    } else {
        fields_text(fields.drop_last()) + seq![','] + field_text(fields.last())
    }
}

/// A record as written, ended by a newline; a record that would be written
/// as nothing (no fields, or one empty field) is written `""`.
pub open spec fn record_text(fields: Seq<Seq<char>>) -> Seq<char> {
    (if fields_text(fields).len() == 0 { seq!['"', '"'] } else { fields_text(fields) }).push('\n')
}

/// The records as written, one after the other.
pub open spec fn document_text(records: Seq<Seq<Seq<char>>>) -> Seq<char>
    decreases records.len(),
{
    if records.len() == 0 {
        seq![]
    } else {
        document_text(records.drop_last()) + record_text(records.last())
    }
}

/// The bytes the csv crate writes for `records` with its default settings
/// (comma delimiter, `"` quotes doubled inside quoted fields, quoting only
/// where necessary, `\n` terminator): the UTF-8 encoding of
/// [`document_text`].
pub open spec fn csv_document(records: Seq<Seq<Seq<char>>>) -> Seq<u8> {
    vstd::utf8::encode_utf8(document_text(records))
}

/// Calls `csv::WriterBuilder::new().flexible(true).from_writer(Vec::new())`:
/// a writer with the default settings except that it checks no record's
/// width; it has accepted nothing.
#[verifier::external_body]
fn csv_writer() -> (w: CsvSink)
    ensures
        csv_accepted(w) == Seq::<Seq<Seq<char>>>::empty(),
{
    CsvSink { inner: csv::WriterBuilder::new().flexible(true).from_writer(Vec::new()) }
}

/// Calls `csv::Writer::write_record`. The writer is flexible, so the crate
/// compares no field counts, and writing into memory cannot fail: the record
/// is accepted.
#[verifier::external_body]
fn csv_write(w: &mut CsvSink, record: &Vec<String>) -> (r: Result<(), csv::Error>)
    ensures
        r is Ok,
        csv_accepted(*final(w)) == csv_accepted(*old(w)).push(record.deep_view()),
{
    w.inner.write_record(record)
}

/// Calls `csv::Writer::into_inner`, which flushes the writer into memory
/// (this cannot fail) and gives back the bytes. The crate documents the
/// format: a field is quoted when it contains a quote, the delimiter or a
/// record terminator (the writer also quotes `\r`), quotes inside are
/// doubled, and an empty record is written as `""`.
#[verifier::external_body]
fn csv_finish(w: CsvSink) -> (r: Vec<u8>)
    ensures
        r@ == csv_document(csv_accepted(w)),
{
    w.inner.into_inner().expect("flushing into a Vec<u8> cannot fail")
}

/// `n` empty fields.
pub open spec fn blanks(n: nat) -> Seq<Seq<char>> {
    Seq::new(n, |k: int| Seq::<char>::empty())
}

pub open spec fn issue_row(i: Issue) -> Seq<Seq<char>> {
    seq![
        decimal(i.number as nat),
        i.title@,
        i.state@,
        i.author@,
        joined(i.labels.deep_view(), ", "@),
        chrono_rfc3339(i.created_at.spec_secs(), i.created_at.spec_nanos()),
        i.html_url@,
    ]
}

pub open spec fn pull_row(p: PullRequest) -> Seq<Seq<char>> {
    seq![
        decimal(p.number as nat),
        p.title@,
        p.state@,
        p.author@,
        p.head_branch@,
        p.base_branch@,
        bool_word(p.draft),
        p.html_url@,
    ]
}

pub open spec fn alert_row(a: SecurityAlert) -> Seq<Seq<char>> {
    seq![
        decimal(a.id as nat),
        a.severity@,
        a.summary@,
        or_text(a.package_name.deep_view(), "—"@),
        or_text(a.vulnerable_version_range.deep_view(), "—"@),
        or_text(a.patched_version.deep_view(), "—"@),
        a.html_url@,
    ]
}

pub open spec fn run_row(r: WorkflowRun) -> Seq<Seq<char>> {
    seq![
        decimal(r.id as nat),
        r.name@,
        or_text(r.head_branch.deep_view(), ""@),
        r.status@,
        or_text(r.conclusion.deep_view(), ""@),
        r.actor_login@,
        or_text(r.run_started_at.deep_view(), r.created_at@),
        r.html_url@,
    ]
}

pub open spec fn issues_rows(items: Seq<Issue>) -> Seq<Seq<Seq<char>>> {
    if items.len() == 0 {
        seq![]
    } else {
        seq![seq!["[Issues]"@] + blanks(6),
            seq!["Number"@, "Title"@, "State"@, "Author"@, "Labels"@, "Created"@, "URL"@]]
            + items.map_values(|i: Issue| issue_row(i)) + seq![blanks(7)]
    }
}

pub open spec fn pulls_rows(items: Seq<PullRequest>) -> Seq<Seq<Seq<char>>> {
    if items.len() == 0 {
        seq![]
    } else {
        seq![seq!["[Pull Requests]"@] + blanks(7),
            seq!["Number"@, "Title"@, "State"@, "Author"@, "Head"@, "Base"@, "Draft"@, "URL"@]]
            + items.map_values(|p: PullRequest| pull_row(p)) + seq![blanks(8)]
    }
}

pub open spec fn alerts_rows(items: Seq<SecurityAlert>) -> Seq<Seq<Seq<char>>> {
    if items.len() == 0 {
        seq![]
    } else {
        seq![seq!["[Security Alerts]"@] + blanks(6),
            seq!["ID"@, "Severity"@, "Summary"@, "Package"@, "Vulnerable Range"@, "Patched"@, "URL"@]]
            + items.map_values(|a: SecurityAlert| alert_row(a))
    }
}

/// The records of the CSV report: one labelled section per non-empty kind,
/// issues and pull requests followed by a blank record.
pub open spec fn report_rows(issues: Seq<Issue>, pulls: Seq<PullRequest>, alerts: Seq<SecurityAlert>) -> Seq<Seq<Seq<char>>> {
    issues_rows(issues) + pulls_rows(pulls) + alerts_rows(alerts)
}

/// The records of the workflow-runs CSV file.
pub open spec fn runs_rows(runs: Seq<WorkflowRun>) -> Seq<Seq<Seq<char>>> {
    seq![seq!["ID"@, "Workflow"@, "Branch"@, "Status"@, "Conclusion"@, "Actor"@, "Started"@, "URL"@]]
        + runs.map_values(|r: WorkflowRun| run_row(r))
}

fn record7(a: &str, b: &str, c: &str, d: &str, e: &str, f: &str, g: &str) -> (r: Vec<String>)
    ensures
        r.deep_view() == seq![a@, b@, c@, d@, e@, f@, g@],
{
    let mut v: Vec<String> = Vec::new();
    v.push(String::from_str(a));
    v.push(String::from_str(b));
    v.push(String::from_str(c));
    v.push(String::from_str(d));
    v.push(String::from_str(e));
    v.push(String::from_str(f));
    v.push(String::from_str(g));
    proof { assert(v.deep_view() =~= seq![a@, b@, c@, d@, e@, f@, g@]); }
    v
}

fn record8(a: &str, b: &str, c: &str, d: &str, e: &str, f: &str, g: &str, h: &str) -> (r: Vec<String>)
    ensures
        r.deep_view() == seq![a@, b@, c@, d@, e@, f@, g@, h@],
{
    let mut v = record7(a, b, c, d, e, f, g);
    let ghost before = v.deep_view();
    v.push(String::from_str(h));
    proof { assert(v.deep_view() =~= before.push(h@)); }
    v
}

fn labelled(label: &str, width: usize) -> (r: Vec<String>)
    requires
        1 <= width,
    ensures
        r.deep_view() == seq![label@] + blanks((width - 1) as nat),
{
    let mut v: Vec<String> = Vec::new();
    v.push(String::from_str(label));
    proof { assert(v.deep_view() =~= seq![label@]); }
    for k in 1..width
        invariant
            v@.len() == k,
            v.deep_view() =~= seq![label@] + blanks((k - 1) as nat),
    {
        let e = String::from_str("");
        proof {
            reveal_strlit("");
            assert(e@ =~= Seq::<char>::empty());
        }
        let ghost before = v.deep_view();
        v.push(e);
        proof {
            assert(v.deep_view() =~= before.push(e@));
        }
    }
    v
}

fn blank_record(width: usize) -> (r: Vec<String>)
    ensures
        r.deep_view() == blanks(width as nat),
{
    let mut v: Vec<String> = Vec::new();
    proof { assert(v.deep_view() =~= blanks(0)); }
    for k in 0..width
        invariant
            v@.len() == k,
            v.deep_view() =~= blanks(k as nat),
    {
        let e = String::from_str("");
        proof {
            reveal_strlit("");
            assert(e@ =~= Seq::<char>::empty());
        }
        let ghost before = v.deep_view();
        v.push(e);
        proof {
            assert(v.deep_view() =~= before.push(e@));
        }
    }
    v
}

fn issue_record(i: &Issue) -> (r: Vec<String>)
    ensures
        r.deep_view() == issue_row(*i),
{
    let mut v: Vec<String> = Vec::new();
    v.push(decimal_text(i.number));
    v.push(i.title.clone());
    v.push(i.state.clone());
    v.push(i.author.clone());
    v.push(join_text(&i.labels, ", "));
    v.push(i.created_at.to_rfc3339());
    v.push(i.html_url.clone());
    proof { assert(v.deep_view() =~= issue_row(*i)); }
    v
}

fn pull_record(p: &PullRequest) -> (r: Vec<String>)
    ensures
        r.deep_view() == pull_row(*p),
{
    let mut v: Vec<String> = Vec::new();
    v.push(decimal_text(p.number));
    v.push(p.title.clone());
    v.push(p.state.clone());
    v.push(p.author.clone());
    v.push(p.head_branch.clone());
    v.push(p.base_branch.clone());
    v.push(bool_text(p.draft));
    v.push(p.html_url.clone());
    proof { assert(v.deep_view() =~= pull_row(*p)); }
    v
}

fn alert_record(a: &SecurityAlert) -> (r: Vec<String>)
    ensures
        r.deep_view() == alert_row(*a),
{
    let mut v: Vec<String> = Vec::new();
    v.push(decimal_text(a.id));
    v.push(a.severity.clone());
    v.push(a.summary.clone());
    v.push(text_or(&a.package_name, "—"));
    v.push(text_or(&a.vulnerable_version_range, "—"));
    v.push(text_or(&a.patched_version, "—"));
    v.push(a.html_url.clone());
    proof { assert(v.deep_view() =~= alert_row(*a)); }
    v
}

fn run_record(r: &WorkflowRun) -> (out: Vec<String>)
    ensures
        out.deep_view() == run_row(*r),
{
    let mut v: Vec<String> = Vec::new();
    v.push(decimal_text(r.id));
    v.push(r.name.clone());
    v.push(text_or(&r.head_branch, ""));
    v.push(r.status.clone());
    v.push(text_or(&r.conclusion, ""));
    v.push(r.actor_login.clone());
    v.push(text_or(&r.run_started_at, r.created_at.as_str()));
    v.push(r.html_url.clone());
    proof { assert(v.deep_view() =~= run_row(*r)); }
    v
}

fn push_record(rows: &mut Vec<Vec<String>>, record: Vec<String>)
    ensures
        final(rows).deep_view() == old(rows).deep_view().push(record.deep_view()),
{
    let ghost before = rows.deep_view();
    let ghost rv = record.deep_view();
    rows.push(record);
    proof { assert(rows.deep_view() =~= before.push(rv)); }
}

fn add_issue_rows(rows: &mut Vec<Vec<String>>, items: &[Issue])
    ensures
        final(rows).deep_view() == old(rows).deep_view() + issues_rows(items@),
{
    if items.len() == 0 {
        proof { assert(old(rows).deep_view() + issues_rows(items@) =~= old(rows).deep_view()); }
        return;
    }
    let ghost start = rows.deep_view();
    push_record(rows, labelled("[Issues]", 7));
    push_record(rows, record7("Number", "Title", "State", "Author", "Labels", "Created", "URL"));
    let ghost head = rows.deep_view();
    for k in 0..items.len()
        invariant
            rows.deep_view() == head + items@.take(k as int).map_values(|i: Issue| issue_row(i)),
    {
        push_record(rows, issue_record(&items[k]));
        proof {
            assert(items@.take(k + 1).map_values(|i: Issue| issue_row(i))
                =~= items@.take(k as int).map_values(|i: Issue| issue_row(i)).push(issue_row(items@[k as int])));
        }
    }
    push_record(rows, blank_record(7));
    proof {
        assert(items@.take(items@.len() as int) =~= items@);
        assert(rows.deep_view() =~= start + issues_rows(items@));
    }
}

fn add_pull_rows(rows: &mut Vec<Vec<String>>, items: &[PullRequest])
    ensures
        final(rows).deep_view() == old(rows).deep_view() + pulls_rows(items@),
{
    if items.len() == 0 {
        proof { assert(old(rows).deep_view() + pulls_rows(items@) =~= old(rows).deep_view()); }
        return;
    }
    let ghost start = rows.deep_view();
    push_record(rows, labelled("[Pull Requests]", 8));
    push_record(rows, record8("Number", "Title", "State", "Author", "Head", "Base", "Draft", "URL"));
    let ghost head = rows.deep_view();
    for k in 0..items.len()
        invariant
            rows.deep_view() == head + items@.take(k as int).map_values(|p: PullRequest| pull_row(p)),
    {
        push_record(rows, pull_record(&items[k]));
        proof {
            assert(items@.take(k + 1).map_values(|p: PullRequest| pull_row(p))
                =~= items@.take(k as int).map_values(|p: PullRequest| pull_row(p)).push(pull_row(items@[k as int])));
        }
    }
    push_record(rows, blank_record(8));
    proof {
        assert(items@.take(items@.len() as int) =~= items@);
        assert(rows.deep_view() =~= start + pulls_rows(items@));
    }
}

fn add_alert_rows(rows: &mut Vec<Vec<String>>, items: &[SecurityAlert])
    ensures
        final(rows).deep_view() == old(rows).deep_view() + alerts_rows(items@),
{
    if items.len() == 0 {
        proof { assert(old(rows).deep_view() + alerts_rows(items@) =~= old(rows).deep_view()); }
        return;
    }
    let ghost start = rows.deep_view();
    push_record(rows, labelled("[Security Alerts]", 7));
    push_record(rows, record7("ID", "Severity", "Summary", "Package", "Vulnerable Range", "Patched", "URL"));
    let ghost head = rows.deep_view();
    for k in 0..items.len()
        invariant
            rows.deep_view() == head + items@.take(k as int).map_values(|a: SecurityAlert| alert_row(a)),
    {
        push_record(rows, alert_record(&items[k]));
        proof {
            assert(items@.take(k + 1).map_values(|a: SecurityAlert| alert_row(a))
                =~= items@.take(k as int).map_values(|a: SecurityAlert| alert_row(a)).push(alert_row(items@[k as int])));
        }
    }
    proof {
        assert(items@.take(items@.len() as int) =~= items@);
        assert(rows.deep_view() =~= start + alerts_rows(items@));
    }
}

/// Encodes `rows` with the csv crate.
fn encode(rows: &Vec<Vec<String>>) -> (r: Vec<u8>)
    ensures
        r@ == csv_document(rows.deep_view()),
{
    let ghost all = rows.deep_view();
    let mut w = csv_writer();
    let n = rows.len();
    for k in 0..n
        invariant
            n == rows@.len(),
            all == rows.deep_view(),
            all.len() == n,
            csv_accepted(w) == all.take(k as int),
    {
        proof { assert(all[k as int] == rows@[k as int].deep_view()); }
        let written = csv_write(&mut w, &rows[k]);
        proof {
            assert(written is Ok);
            assert(all.take(k + 1) =~= all.take(k as int).push(all[k as int]));
        }
    }
    proof { assert(all.take(n as int) =~= all); }
    csv_finish(w)
}

/// Export issues, pull requests, and security alerts to a single CSV
/// document, broken into labelled sections (issues and alerts have seven
/// columns, pull requests eight).
pub fn export_to_csv(issues: &[Issue], pulls: &[PullRequest], alerts: &[SecurityAlert]) -> (r: Vec<u8>)
    ensures
        r@ == csv_document(report_rows(issues@, pulls@, alerts@)),
{
    let mut rows: Vec<Vec<String>> = Vec::new();
    proof { assert(rows.deep_view() =~= Seq::<Seq<Seq<char>>>::empty()); }
    add_issue_rows(&mut rows, issues);
    add_pull_rows(&mut rows, pulls);
    add_alert_rows(&mut rows, alerts);
    proof {
        assert(rows.deep_view() =~= report_rows(issues@, pulls@, alerts@));
    }
    encode(&rows)
}

/// The records of a workflow-runs section: a label record, then the runs
/// file's header and records; nothing when there are no runs.
pub open spec fn runs_section_rows(runs: Seq<WorkflowRun>) -> Seq<Seq<Seq<char>>> {
    if runs.len() == 0 { seq![] } else { seq![seq!["[Workflow Runs]"@] + blanks(7)] + runs_rows(runs) }
}

fn add_run_rows(rows: &mut Vec<Vec<String>>, runs: &[WorkflowRun])
    ensures
        final(rows).deep_view() == old(rows).deep_view() + runs_rows(runs@),
{
    let ghost start = rows.deep_view();
    push_record(rows, record8("ID", "Workflow", "Branch", "Status", "Conclusion", "Actor", "Started", "URL"));
    let ghost head = rows.deep_view();
    for k in 0..runs.len()
        invariant
            rows.deep_view() == head + runs@.take(k as int).map_values(|r: WorkflowRun| run_row(r)),
    {
        push_record(rows, run_record(&runs[k]));
        proof {
            assert(runs@.take(k + 1).map_values(|r: WorkflowRun| run_row(r))
                =~= runs@.take(k as int).map_values(|r: WorkflowRun| run_row(r)).push(run_row(runs@[k as int])));
        }
    }
    proof {
        assert(runs@.take(runs@.len() as int) =~= runs@);
        assert(rows.deep_view() =~= start + runs_rows(runs@));
    }
}

/// Export everything the user selected to one CSV document: the issues,
/// pull requests and security alerts sections of [`export_to_csv`], then a
/// labelled workflow-runs section when there are runs.
pub fn export_report_csv(
    issues: &[Issue],
    pulls: &[PullRequest],
    alerts: &[SecurityAlert],
    workflow_runs: &[WorkflowRun],
) -> (r: Vec<u8>)
    ensures
        r@ == csv_document(report_rows(issues@, pulls@, alerts@) + runs_section_rows(workflow_runs@)),
{
    let mut rows: Vec<Vec<String>> = Vec::new();
    proof { assert(rows.deep_view() =~= Seq::<Seq<Seq<char>>>::empty()); }
    add_issue_rows(&mut rows, issues);
    add_pull_rows(&mut rows, pulls);
    add_alert_rows(&mut rows, alerts);
    let ghost before = rows.deep_view();
    if workflow_runs.len() > 0 {
        push_record(&mut rows, labelled("[Workflow Runs]", 8));
        add_run_rows(&mut rows, workflow_runs);
        proof { assert(rows.deep_view() =~= before + runs_section_rows(workflow_runs@)); }
    } else {
        proof { assert(rows.deep_view() =~= before + runs_section_rows(workflow_runs@)); }
    }
    proof {
        assert(before =~= report_rows(issues@, pulls@, alerts@));
    }
    encode(&rows)
}

/// Export workflow runs to a standalone CSV document: a header and one
/// record per run.
pub fn export_actions_csv(runs: &[WorkflowRun]) -> (r: Vec<u8>)
    ensures
        r@ == csv_document(runs_rows(runs@)),
{
    let mut rows: Vec<Vec<String>> = Vec::new();
    proof { assert(rows.deep_view() =~= Seq::<Seq<Seq<char>>>::empty()); }
    add_run_rows(&mut rows, runs);
    proof { assert(rows.deep_view() =~= runs_rows(runs@)); }
    encode(&rows)
}

/// In the CSV report every section has its header record right after its
/// label, and each record below it has the item's values in the header's
/// order. Issues: Number, Title, State, Author, Labels (joined by ", "),
/// Created (RFC 3339), URL. Pull requests: Number, Title, State, Author,
/// Head, Base, Draft ("true"/"false"), URL. Security alerts: ID, Severity,
/// Summary, Package, Vulnerable Range, Patched (each "—" when absent), URL.
/// The sections come in that order, each present only when it has items;
/// issues and pull requests are followed by a blank record.
pub proof fn csv_fields_sit_under_their_headers(issues: Seq<Issue>, pulls: Seq<PullRequest>, alerts: Seq<SecurityAlert>)
    ensures
        ({
            let rows = report_rows(issues, pulls, alerts);
            let ib: int = if issues.len() > 0 { issues.len() + 3int } else { 0int };
            let pb: int = if pulls.len() > 0 { pulls.len() + 3int } else { 0int };
            let ab: int = if alerts.len() > 0 { alerts.len() + 2int } else { 0int };
            &&& rows.len() == ib + pb + ab
            &&& issues.len() > 0 ==> rows[0] == seq!["[Issues]"@, ""@, ""@, ""@, ""@, ""@, ""@]
                && rows[1] == seq!["Number"@, "Title"@, "State"@, "Author"@, "Labels"@, "Created"@, "URL"@]
            &&& forall|k: int| 0 <= k < issues.len() ==> #[trigger] rows[2 + k] == seq![
                decimal(issues[k].number as nat),
                issues[k].title@,
                issues[k].state@,
                issues[k].author@,
                joined(issues[k].labels.deep_view(), ", "@),
                chrono_rfc3339(issues[k].created_at.spec_secs(), issues[k].created_at.spec_nanos()),
                issues[k].html_url@,
            ]
            &&& pulls.len() > 0 ==> rows[ib] == seq!["[Pull Requests]"@, ""@, ""@, ""@, ""@, ""@, ""@, ""@]
                && rows[ib + 1] == seq!["Number"@, "Title"@, "State"@, "Author"@, "Head"@, "Base"@, "Draft"@, "URL"@]
            &&& forall|k: int| 0 <= k < pulls.len() ==> #[trigger] rows[ib + 2 + k] == seq![
                decimal(pulls[k].number as nat),
                pulls[k].title@,
                pulls[k].state@,
                pulls[k].author@,
                pulls[k].head_branch@,
                pulls[k].base_branch@,
                if pulls[k].draft { "true"@ } else { "false"@ },
                pulls[k].html_url@,
            ]
            &&& alerts.len() > 0 ==> rows[ib + pb] == seq!["[Security Alerts]"@, ""@, ""@, ""@, ""@, ""@, ""@]
                && rows[ib + pb + 1] == seq!["ID"@, "Severity"@, "Summary"@, "Package"@, "Vulnerable Range"@, "Patched"@, "URL"@]
            &&& forall|k: int| 0 <= k < alerts.len() ==> #[trigger] rows[ib + pb + 2 + k] == seq![
                decimal(alerts[k].id as nat),
                alerts[k].severity@,
                alerts[k].summary@,
                match alerts[k].package_name { Some(t) => t@, None => "—"@ },
                match alerts[k].vulnerable_version_range { Some(t) => t@, None => "—"@ },
                match alerts[k].patched_version { Some(t) => t@, None => "—"@ },
                alerts[k].html_url@,
            ]
        }),
{
    let rows = report_rows(issues, pulls, alerts);
    let a = issues_rows(issues);
    let b = pulls_rows(pulls);
    let c = alerts_rows(alerts);
    reveal_strlit("");
    assert(""@ =~= Seq::<char>::empty());
    assert(blanks(6) =~= seq![""@, ""@, ""@, ""@, ""@, ""@]);
    assert(blanks(7) =~= seq![""@, ""@, ""@, ""@, ""@, ""@, ""@]);
    assert(seq!["[Issues]"@] + blanks(6) =~= seq!["[Issues]"@, ""@, ""@, ""@, ""@, ""@, ""@]);
    assert(seq!["[Pull Requests]"@] + blanks(7) =~= seq!["[Pull Requests]"@, ""@, ""@, ""@, ""@, ""@, ""@, ""@]);
    assert(seq!["[Security Alerts]"@] + blanks(6) =~= seq!["[Security Alerts]"@, ""@, ""@, ""@, ""@, ""@, ""@]);
    assert(rows =~= a + b + c);
    assert forall|k: int| 0 <= k < issues.len() implies #[trigger] rows[2 + k] == issue_row(issues[k]) by {
        assert(rows[2 + k] == a[2 + k]);
    }
    assert forall|k: int| 0 <= k < pulls.len() implies #[trigger] rows[a.len() + 2 + k] == pull_row(pulls[k]) by {
        assert(rows[a.len() + 2 + k] == b[2 + k]);
    }
    assert forall|k: int| 0 <= k < alerts.len() implies #[trigger] rows[a.len() + b.len() + 2 + k] == alert_row(alerts[k]) by {
        assert(rows[a.len() + b.len() + 2 + k] == c[2 + k]);
    }
    if issues.len() > 0 {
        assert(rows[0] == a[0]);
        assert(rows[1] == a[1]);
    }
    if pulls.len() > 0 {
        assert(rows[a.len() as int] == b[0]);
        assert(rows[a.len() + 1int] == b[1]);
    }
    if alerts.len() > 0 {
        assert(rows[(a.len() + b.len()) as int] == c[0]);
        assert(rows[a.len() + b.len() + 1int] == c[1]);
    }
}

/// In the workflow-runs CSV file the header comes first, then one record per
/// run in order: ID, Workflow, Branch (empty when absent), Status,
/// Conclusion (empty when absent), Actor, Started (the creation time when
/// the run has not started), URL.
pub proof fn run_fields_sit_under_their_headers(runs: Seq<WorkflowRun>)
    ensures
        runs_rows(runs).len() == runs.len() + 1,
        runs_rows(runs)[0] == seq!["ID"@, "Workflow"@, "Branch"@, "Status"@, "Conclusion"@, "Actor"@, "Started"@, "URL"@],
        forall|k: int| 0 <= k < runs.len() ==> #[trigger] runs_rows(runs)[1 + k] == seq![
            decimal(runs[k].id as nat),
            runs[k].name@,
            match runs[k].head_branch { Some(t) => t@, None => ""@ },
            runs[k].status@,
            match runs[k].conclusion { Some(t) => t@, None => ""@ },
            runs[k].actor_login@,
            match runs[k].run_started_at { Some(t) => t@, None => runs[k].created_at@ },
            runs[k].html_url@,
        ],
{
    assert forall|k: int| 0 <= k < runs.len() implies #[trigger] runs_rows(runs)[1 + k] == run_row(runs[k]) by {}
}

// ── Reading a document back ───────────────────────────────────────────────

/// Where a CSV reader stands between two characters.
pub enum ReadMode {
    /// At the start of a field, nothing of it read.
    StartField,
    /// Inside a field written without quotes.
    Unquoted,
    /// Inside a quoted field.
    Quoted,
    /// Just after a quote inside a quoted field: the field's end, or the
    /// first of a doubled quote.
    QuoteInQuoted,
}

/// A CSV reader's state: the records read, the fields of the current
/// record, the current field, and where it stands.
#[verifier::ext_equal]
pub struct ReadState {
    pub done: Seq<Seq<Seq<char>>>,
    pub fields: Seq<Seq<char>>,
    pub field: Seq<char>,
    pub mode: ReadMode,
}

pub open spec fn is_terminator(c: char) -> bool {
    c == '\n' || c == '\r'
}

pub open spec fn with_field(s: ReadState, field: Seq<char>, mode: ReadMode) -> ReadState {
    ReadState { done: s.done, fields: s.fields, field, mode }
}

pub open spec fn end_field(s: ReadState) -> ReadState {
    ReadState { done: s.done, fields: s.fields.push(s.field), field: seq![], mode: ReadMode::StartField }
}

pub open spec fn end_record(s: ReadState) -> ReadState {
    ReadState { done: s.done.push(s.fields.push(s.field)), fields: seq![], field: seq![], mode: ReadMode::StartField }
}

/// How a CSV reader (comma delimiter, `"` quotes doubled inside quoted
/// fields, `\n` or `\r` ending a record, empty lines skipped) takes one more
/// character.
pub open spec fn read_step(s: ReadState, c: char) -> ReadState {
    match s.mode {
        ReadMode::StartField => {
            if c == '"' {
                with_field(s, s.field, ReadMode::Quoted)
            } else if c == ',' {
                end_field(s)
            } else if is_terminator(c) {
                if s.fields.len() == 0 { s } else { end_record(s) }
            } else {
                with_field(s, s.field.push(c), ReadMode::Unquoted)
            }
        },
        ReadMode::Unquoted => {
            if c == ',' {
                end_field(s)
            } else if is_terminator(c) {
                end_record(s)
            } else {
                with_field(s, s.field.push(c), ReadMode::Unquoted)
            }
        },
        ReadMode::Quoted => {
            if c == '"' {
                with_field(s, s.field, ReadMode::QuoteInQuoted)
            } else {
                with_field(s, s.field.push(c), ReadMode::Quoted)
            }
        },
        ReadMode::QuoteInQuoted => {
            if c == '"' {
                with_field(s, s.field.push('"'), ReadMode::Quoted)
            } else if c == ',' {
                end_field(s)
            } else if is_terminator(c) {
                end_record(s)
            } else {
                with_field(s, s.field.push(c), ReadMode::Unquoted)
            }
        },
    }
}

/// The reader's state after taking `text` from state `s`.
pub open spec fn read_from(s: ReadState, text: Seq<char>) -> ReadState
    decreases text.len(),
{
    if text.len() == 0 {
        s
    } else {
        read_step(read_from(s, text.drop_last()), text.last())
    }
}

pub open spec fn fresh(done: Seq<Seq<Seq<char>>>) -> ReadState {
    ReadState { done, fields: seq![], field: seq![], mode: ReadMode::StartField }
}

/// The records a CSV reader reads from `text` (a last record without a
/// terminator included).
pub open spec fn read_csv(text: Seq<char>) -> Seq<Seq<Seq<char>>> {
    let s = read_from(fresh(seq![]), text);
    if s.mode is StartField && s.fields.len() == 0 { s.done } else { end_record(s).done }
}

proof fn lemma_read_concat(s: ReadState, a: Seq<char>, b: Seq<char>)
    ensures
        read_from(s, a + b) == read_from(read_from(s, a), b),
    decreases b.len(),
{
    if b.len() == 0 {
        assert(a + b =~= a);
    } else {
        assert((a + b).drop_last() =~= a + b.drop_last());
        assert((a + b).last() == b.last());
        lemma_read_concat(s, a, b.drop_last());
    }
}

/// The mode a reader is in after a field as written.
pub open spec fn mode_after(f: Seq<char>) -> ReadMode {
    if needs_quotes(f) {
        ReadMode::QuoteInQuoted
    } else if f.len() == 0 {
        ReadMode::StartField
    } else {
        ReadMode::Unquoted
    }
}

proof fn lemma_read_one(s: ReadState, c: char)
    ensures
        read_from(s, seq![c]) == read_step(s, c),
{
    assert(seq![c].drop_last() =~= Seq::<char>::empty());
    assert(read_from(s, Seq::<char>::empty()) == s);
}

proof fn lemma_read_doubled(s: ReadState, f: Seq<char>)
    requires
        s.mode is Quoted,
    ensures
        read_from(s, doubled_quotes(f)) =~= with_field(s, s.field + f, ReadMode::Quoted),
    decreases f.len(),
{
    if f.len() == 0 {
        assert(read_from(s, Seq::<char>::empty()) == s);
        assert(s.field + f =~= s.field);
    } else {
        let init = f.drop_last();
        lemma_read_doubled(s, init);
        let mid = read_from(s, doubled_quotes(init));
        assert(mid =~= with_field(s, s.field + init, ReadMode::Quoted));
        assert((s.field + init).push(f.last()) =~= s.field + f);
        if f.last() == '"' {
            lemma_read_concat(s, doubled_quotes(init), seq!['"', '"']);
            assert(seq!['"', '"'] =~= seq!['"'] + seq!['"']);
            lemma_read_concat(mid, seq!['"'], seq!['"']);
            lemma_read_one(mid, '"');
            lemma_read_one(read_step(mid, '"'), '"');
        } else {
            lemma_read_concat(s, doubled_quotes(init), seq![f.last()]);
            lemma_read_one(mid, f.last());
            assert(doubled_quotes(f) == doubled_quotes(init).push(f.last()));
            assert(doubled_quotes(init).push(f.last()) =~= doubled_quotes(init) + seq![f.last()]);
        }
    }
}

proof fn lemma_read_plain(s: ReadState, f: Seq<char>)
    requires
        s.mode is StartField,
        s.field.len() == 0,
        forall|k: int| 0 <= k < f.len() ==> !is_special(#[trigger] f[k]),
    ensures
        read_from(s, f) =~= with_field(s, f, if f.len() == 0 { ReadMode::StartField } else { ReadMode::Unquoted }),
    decreases f.len(),
{
    if f.len() == 0 {
        assert(read_from(s, f) == s);
        assert(s.field =~= f);
    } else {
        let init = f.drop_last();
        assert forall|k: int| 0 <= k < init.len() implies !is_special(#[trigger] init[k]) by {
            assert(init[k] == f[k]);
        }
        lemma_read_plain(s, init);
        assert(!is_special(f[f.len() - 1]));
        assert(init.push(f.last()) =~= f);
        if init.len() == 0 {
            assert(s.field.push(f.last()) =~= f);
        }
    }
}

proof fn lemma_read_field(s: ReadState, f: Seq<char>)
    requires
        s.mode is StartField,
        s.field.len() == 0,
    ensures
        read_from(s, field_text(f)) =~= with_field(s, f, mode_after(f)),
{
    if needs_quotes(f) {
        let open = with_field(s, s.field, ReadMode::Quoted);
        lemma_read_one(s, '"');
        lemma_read_concat(s, seq!['"'], doubled_quotes(f));
        lemma_read_doubled(open, f);
        let inner = read_from(open, doubled_quotes(f));
        lemma_read_concat(s, seq!['"'] + doubled_quotes(f), seq!['"']);
        lemma_read_one(inner, '"');
        assert(s.field + f =~= f);
    } else {
        assert forall|k: int| 0 <= k < f.len() implies !is_special(#[trigger] f[k]) by {
            if is_special(f[k]) { assert(needs_quotes(f)); }
        }
        lemma_read_plain(s, f);
    }
}

/// Whether a reader stands at a field's end with the field read.
pub open spec fn after_field(s: ReadState, done: Seq<Seq<Seq<char>>>, fields: Seq<Seq<char>>, f: Seq<char>) -> bool {
    s =~= ReadState { done, fields, field: f, mode: mode_after(f) }
}

proof fn lemma_read_fields(done: Seq<Seq<Seq<char>>>, fs: Seq<Seq<char>>)
    requires
        fs.len() >= 1,
    ensures
        after_field(read_from(fresh(done), fields_text(fs)), done, fs.drop_last(), fs.last()),
    decreases fs.len(),
{
    if fs.len() == 1 {
        lemma_read_field(fresh(done), fs[0]);
        assert(fs.drop_last() =~= Seq::<Seq<char>>::empty());
    } else {
        let init = fs.drop_last();
        lemma_read_fields(done, init);
        let x = fields_text(init);
        let a = read_from(fresh(done), x);
        lemma_read_concat(fresh(done), x, seq![',']);
        lemma_read_one(a, ',');
        let b = read_from(a, seq![',']);
        assert(init.drop_last().push(init.last()) =~= init);
        assert(b =~= ReadState { done, fields: init, field: seq![], mode: ReadMode::StartField });
        lemma_read_concat(fresh(done), x + seq![','], field_text(fs.last()));
        lemma_read_field(b, fs.last());
        assert(fields_text(fs) == x + seq![','] + field_text(fs.last()));
    }
}

proof fn lemma_read_record(done: Seq<Seq<Seq<char>>>, r: Seq<Seq<char>>)
    requires
        r.len() >= 1,
    ensures
        read_from(fresh(done), record_text(r)) =~= fresh(done.push(r)),
{
    lemma_read_fields(done, r);
    let ft = fields_text(r);
    let a = read_from(fresh(done), ft);
    assert(r.drop_last().push(r.last()) =~= r);
    if r.len() > 1 {
        assert(ft == fields_text(r.drop_last()) + seq![','] + field_text(r.last()));
        assert(ft.len() > 0);
    } else {
        assert(ft == field_text(r[0]));
    }
    if ft.len() == 0 {
        // Only a single empty field is written as nothing; it goes out as `""`.
        assert(!needs_quotes(r[0]));
        assert(r[0] =~= Seq::<char>::empty());
        let q = with_field(fresh(done), seq![], ReadMode::Quoted);
        let qq = with_field(fresh(done), seq![], ReadMode::QuoteInQuoted);
        assert(record_text(r) =~= seq!['"'] + seq!['"'] + seq!['\n']);
        lemma_read_one(fresh(done), '"');
        lemma_read_concat(fresh(done), seq!['"'], seq!['"']);
        lemma_read_one(q, '"');
        lemma_read_concat(fresh(done), seq!['"'] + seq!['"'], seq!['\n']);
        lemma_read_one(qq, '\n');
        assert(seq![Seq::<char>::empty()] =~= r);
    } else {
        assert(record_text(r) =~= ft + seq!['\n']);
        lemma_read_concat(fresh(done), ft, seq!['\n']);
        lemma_read_one(a, '\n');
        if r.len() == 1 {
            assert(needs_quotes(r[0]) || r[0].len() > 0);
        }
    }
}

proof fn lemma_read_document(done: Seq<Seq<Seq<char>>>, records: Seq<Seq<Seq<char>>>)
    requires
        forall|k: int| 0 <= k < records.len() ==> #[trigger] records[k].len() >= 1,
    ensures
        read_from(fresh(done), document_text(records)) =~= fresh(done + records),
    decreases records.len(),
{
    if records.len() == 0 {
        assert(done + records =~= done);
    } else {
        let init = records.drop_last();
        assert forall|k: int| 0 <= k < init.len() implies #[trigger] init[k].len() >= 1 by {
            assert(init[k] == records[k]);
        }
        lemma_read_document(done, init);
        assert(records[records.len() - 1].len() >= 1);
        lemma_read_concat(fresh(done), document_text(init), record_text(records.last()));
        lemma_read_record(done + init, records.last());
        assert((done + init).push(records.last()) =~= done + records);
    }
}

/// Every document the csv crate writes reads back, with the usual CSV
/// reading, as the records written, provided each record has a field (a
/// record of no fields is written like one empty field).
pub proof fn csv_documents_read_back(records: Seq<Seq<Seq<char>>>)
    requires
        forall|k: int| 0 <= k < records.len() ==> #[trigger] records[k].len() >= 1,
    ensures
        read_csv(document_text(records)) == records,
{
    lemma_read_document(seq![], records);
    assert(seq![] + records =~= records);
}

pub open spec fn all_have_fields(rows: Seq<Seq<Seq<char>>>) -> bool {
    forall|k: int| 0 <= k < rows.len() ==> #[trigger] rows[k].len() >= 1
}

proof fn lemma_rows_have_fields(issues: Seq<Issue>, pulls: Seq<PullRequest>, alerts: Seq<SecurityAlert>, runs: Seq<WorkflowRun>)
    ensures
        all_have_fields(report_rows(issues, pulls, alerts)),
        all_have_fields(runs_rows(runs)),
        all_have_fields(report_rows(issues, pulls, alerts) + runs_section_rows(runs)),
{
    let a = issues_rows(issues);
    let b = pulls_rows(pulls);
    let c = alerts_rows(alerts);
    let d = runs_rows(runs);
    assert(all_have_fields(a)) by {
        assert forall|k: int| 0 <= k < a.len() implies #[trigger] a[k].len() >= 1 by {
            if 2 <= k < a.len() - 1 { assert(a[k] == issue_row(issues[k - 2])); }
        }
    }
    assert(all_have_fields(b)) by {
        assert forall|k: int| 0 <= k < b.len() implies #[trigger] b[k].len() >= 1 by {
            if 2 <= k < b.len() - 1 { assert(b[k] == pull_row(pulls[k - 2])); }
        }
    }
    assert(all_have_fields(c)) by {
        assert forall|k: int| 0 <= k < c.len() implies #[trigger] c[k].len() >= 1 by {
            if 2 <= k { assert(c[k] == alert_row(alerts[k - 2])); }
        }
    }
    assert(all_have_fields(d)) by {
        assert forall|k: int| 0 <= k < d.len() implies #[trigger] d[k].len() >= 1 by {
            if 1 <= k { assert(d[k] == run_row(runs[k - 1])); }
        }
    }
    let e = runs_section_rows(runs);
    assert(all_have_fields(e)) by {
        assert forall|k: int| 0 <= k < e.len() implies #[trigger] e[k].len() >= 1 by {
            if 1 <= k { assert(e[k] == d[k - 1]); }
        }
    }
    let rows = report_rows(issues, pulls, alerts);
    assert forall|k: int| 0 <= k < rows.len() implies #[trigger] rows[k].len() >= 1 by {
        if k < a.len() { assert(rows[k] == a[k]); }
        else if k < a.len() + b.len() { assert(rows[k] == b[k - a.len()]); }
        else { assert(rows[k] == c[k - a.len() - b.len()]); }
    }
    let all = rows + e;
    assert forall|k: int| 0 <= k < all.len() implies #[trigger] all[k].len() >= 1 by {
        if k < rows.len() { assert(all[k] == rows[k]); } else { assert(all[k] == e[k - rows.len()]); }
    }
}

/// The exported CSV documents read back as the rows written: the report of
/// issues, pull requests and alerts (with or without its workflow-runs
/// section) and the workflow-runs file, field for field, commas, quotes and
/// line breaks included. (The exports' bytes are the UTF-8 encoding of
/// these texts.)
pub proof fn csv_exports_read_back(
    issues: Seq<Issue>,
    pulls: Seq<PullRequest>,
    alerts: Seq<SecurityAlert>,
    runs: Seq<WorkflowRun>,
)
    ensures
        read_csv(document_text(report_rows(issues, pulls, alerts))) == report_rows(issues, pulls, alerts),
        read_csv(document_text(report_rows(issues, pulls, alerts) + runs_section_rows(runs)))
            == report_rows(issues, pulls, alerts) + runs_section_rows(runs),
        read_csv(document_text(runs_rows(runs))) == runs_rows(runs),
{
    lemma_rows_have_fields(issues, pulls, alerts, runs);
    csv_documents_read_back(report_rows(issues, pulls, alerts));
    csv_documents_read_back(report_rows(issues, pulls, alerts) + runs_section_rows(runs));
    csv_documents_read_back(runs_rows(runs));
}

} // verus!
