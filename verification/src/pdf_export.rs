//! Page layout of the PDF report.
//!
//! Positions are in half-millimetres measured upwards from the bottom edge of
//! an A4 page (210 mm x 297 mm), so every distance of the layout is a whole
//! number: text starts at 280 mm, no line is placed below the 20 mm margin,
//! and consecutive lines are 5.5 mm apart. Font sizes are in points. The
//! application draws the lines with Helvetica (bold where marked).
use vstd::prelude::*;
use crate::models::{Issue, PullRequest, SecurityAlert, WorkflowRun};
use crate::text::{
    bool_text, bool_word, decimal, decimal_text, flatten_newlines, flattened, join_text, joined, or_text,
    text_or, truncate, truncated,
};
use crate::timestamp::chrono_ymd;

verus! {

/// Page width (210 mm).
pub const PAGE_W: i64 = 420;
/// Page height (297 mm).
pub const PAGE_H: i64 = 594;
/// Left margin (15 mm).
pub const MARGIN_L: i64 = 30;
/// Height of the first line of a page (280 mm).
pub const TOP_Y: i64 = 560;
/// Lowest position a line may take (20 mm).
pub const BOTTOM_Y: i64 = 40;
/// Vertical step per line of text (5.5 mm).
pub const LINE_H: i64 = 11;

/// A line of text placed on a page (the mathematical view of [`PdfLine`]).
pub struct PlacedText {
    pub page: nat,
    pub y: int,
    pub size: nat,
    pub bold: bool,
    pub text: Seq<char>,
}

/// A layout in progress: the current page and height, and the lines placed.
pub struct Layout {
    pub page: nat,
    pub y: int,
    pub lines: Seq<PlacedText>,
}

/// A line of text of the report.
#[derive(Debug, Clone)]
pub struct PdfLine {
    /// Page index, the first page being 0.
    pub page: usize,
    /// Baseline height in half-millimetres above the bottom edge.
    pub y: i64,
    /// Font size in points.
    pub size: u32,
    /// Whether the bold face is used.
    pub bold: bool,
    pub text: String,
}

/// The laid-out report: its number of pages and its lines in drawing order.
#[derive(Debug)]
pub struct PdfReport {
    pub pages: usize,
    pub lines: Vec<PdfLine>,
}

pub open spec fn line_view(l: PdfLine) -> PlacedText {
    PlacedText { page: l.page as nat, y: l.y as int, size: l.size as nat, bold: l.bold, text: l.text@ }
}

pub open spec fn lines_view(lines: Seq<PdfLine>) -> Seq<PlacedText> {
    lines.map_values(|l: PdfLine| line_view(l))
}

/// The empty first page.
pub open spec fn start() -> Layout {
    Layout { page: 0, y: TOP_Y as int, lines: seq![] }
}

/// Writes a line at the current height, then moves one line down.
pub open spec fn put(s: Layout, text: Seq<char>, size: nat, bold: bool) -> Layout {
    Layout {
        page: s.page,
        y: s.y - LINE_H,
        lines: s.lines.push(PlacedText { page: s.page, y: s.y, size, bold, text }),
    }
}

/// Starts a new page when fewer than `n` lines of space remain.
pub open spec fn need(s: Layout, n: nat) -> Layout {
    if s.y < BOTTOM_Y + LINE_H * n {
        Layout { page: s.page + 1, y: TOP_Y as int, lines: s.lines }
    } else {
        s
    }
}

/// Moves down by `d` without writing.
pub open spec fn skip(s: Layout, d: int) -> Layout {
    Layout { page: s.page, y: s.y - d, lines: s.lines }
}

pub open spec fn issue_heading(i: Issue) -> Seq<char> {
    truncated("#"@ + decimal(i.number as nat) + ": "@ + i.title@, 80)
}

pub open spec fn issue_meta(i: Issue) -> Seq<char> {
    "State: "@ + i.state@ + "  |  Author: "@ + i.author@ + "  |  Comments: "@ + decimal(i.comments as nat)
}

pub open spec fn issue_labels(i: Issue) -> Seq<char> {
    "Labels: "@ + truncated(joined(i.labels.deep_view(), ", "@), 70)
}

pub open spec fn issue_created(i: Issue) -> Seq<char> {
    "Created: "@ + chrono_ymd(i.created_at.spec_secs(), i.created_at.spec_nanos())
}

pub open spec fn body_line(b: Seq<char>) -> Seq<char> {
    "Body: "@ + truncated(flattened(b), 100)
}

/// The lines of one issue: heading, state line, labels (when there are
/// any), creation date, link and the first part of a non-empty body.
pub open spec fn issue_block(s: Layout, i: Issue) -> Layout {
    let s1 = put(need(s, 7), issue_heading(i), 11, true);
    let s2 = put(s1, issue_meta(i), 9, false);
    let s3 = if i.labels@.len() > 0 { put(s2, issue_labels(i), 9, false) } else { s2 };
    let s4 = put(s3, issue_created(i), 9, false);
    let s5 = put(s4, truncated(i.html_url@, 90), 9, false);
    let s6 = match i.body {
        Some(b) => if b@.len() > 0 { put(s5, body_line(b@), 8, false) } else { s5 },
        None => s5,
    };
    skip(s6, 4)
}

pub open spec fn pull_heading(p: PullRequest) -> Seq<char> {
    truncated("#"@ + decimal(p.number as nat) + ": "@ + p.title@, 80)
}

pub open spec fn pull_meta(p: PullRequest) -> Seq<char> {
    "State: "@ + p.state@ + "  |  Author: "@ + p.author@ + "  |  Draft: "@ + bool_word(p.draft)
}

pub open spec fn pull_branches(p: PullRequest) -> Seq<char> {
    "Head: "@ + p.head_branch@ + "  ->  Base: "@ + p.base_branch@
}

/// The lines of one pull request: heading, state line, branches and link.
pub open spec fn pull_block(s: Layout, p: PullRequest) -> Layout {
    let s1 = put(need(s, 5), pull_heading(p), 11, true);
    let s2 = put(s1, pull_meta(p), 9, false);
    let s3 = put(s2, pull_branches(p), 9, false);
    let s4 = put(s3, truncated(p.html_url@, 90), 9, false);
    skip(s4, 4)
}

pub open spec fn alert_heading(a: SecurityAlert) -> Seq<char> {
    truncated("#"@ + decimal(a.id as nat) + " ["@ + a.severity@ + "]: "@ + a.summary@, 80)
}

pub open spec fn alert_package(a: SecurityAlert, pkg: Seq<char>) -> Seq<char> {
    "Package: "@ + pkg + "  Vulnerable: "@ + or_text(a.vulnerable_version_range.deep_view(), "N/A"@)
        + "  Patched: "@ + or_text(a.patched_version.deep_view(), "N/A"@)
}

/// The lines of one alert: heading, package line (when a package is named)
/// and link.
pub open spec fn alert_block(s: Layout, a: SecurityAlert) -> Layout {
    let s1 = put(need(s, 5), alert_heading(a), 11, true);
    let s2 = match a.package_name {
        Some(pkg) => put(s1, alert_package(a, pkg@), 9, false),
        None => s1,
    };
    let s3 = put(s2, truncated(a.html_url@, 90), 9, false);
    skip(s3, 4)
}

pub open spec fn run_heading(r: WorkflowRun) -> Seq<char> {
    truncated(r.name@ + " [Branch: "@ + or_text(r.head_branch.deep_view(), "N/A"@) + "]"@, 80)
}

pub open spec fn run_status(r: WorkflowRun) -> Seq<char> {
    "Status: "@ + r.status@ + "  |  Conclusion: "@ + or_text(r.conclusion.deep_view(), "N/A"@)
        + "  |  Actor: "@ + r.actor_login@
}

pub open spec fn run_started(r: WorkflowRun) -> Seq<char> {
    "Started: "@ + or_text(r.run_started_at.deep_view(), r.created_at@)
}

/// The lines of one workflow run: heading, status line, start time and link.
pub open spec fn run_block(s: Layout, r: WorkflowRun) -> Layout {
    let s1 = put(need(s, 5), run_heading(r), 11, true);
    let s2 = put(s1, run_status(r), 9, false);
    let s3 = put(s2, run_started(r), 9, false);
    let s4 = put(s3, truncated(r.html_url@, 90), 9, false);
    skip(s4, 4)
}

pub open spec fn issue_blocks(s: Layout, items: Seq<Issue>) -> Layout
    decreases items.len(),
{
    if items.len() == 0 { s } else { issue_block(issue_blocks(s, items.drop_last()), items.last()) }
}

pub open spec fn pull_blocks(s: Layout, items: Seq<PullRequest>) -> Layout
    decreases items.len(),
{
    if items.len() == 0 { s } else { pull_block(pull_blocks(s, items.drop_last()), items.last()) }
}

pub open spec fn alert_blocks(s: Layout, items: Seq<SecurityAlert>) -> Layout
    decreases items.len(),
{
    if items.len() == 0 { s } else { alert_block(alert_blocks(s, items.drop_last()), items.last()) }
}

pub open spec fn run_blocks(s: Layout, items: Seq<WorkflowRun>) -> Layout
    decreases items.len(),
{
    if items.len() == 0 { s } else { run_block(run_blocks(s, items.drop_last()), items.last()) }
}

/// A section with a bold heading, its items below; nothing when empty.
pub open spec fn issues_section(s: Layout, items: Seq<Issue>) -> Layout {
    if items.len() == 0 { s } else { issue_blocks(skip(put(need(s, 3), "Issues"@, 14, true), 4), items) }
}

pub open spec fn pulls_section(s: Layout, items: Seq<PullRequest>) -> Layout {
    if items.len() == 0 { s } else {
        pull_blocks(skip(put(skip(need(s, 3), 8), "Pull Requests"@, 14, true), 4), items)
    }
}

pub open spec fn alerts_section(s: Layout, items: Seq<SecurityAlert>) -> Layout {
    if items.len() == 0 { s } else {
        alert_blocks(skip(put(skip(need(s, 3), 8), "Security Alerts"@, 14, true), 4), items)
    }
}

pub open spec fn runs_section(s: Layout, items: Seq<WorkflowRun>) -> Layout {
    if items.len() == 0 { s } else {
        run_blocks(skip(put(skip(need(s, 3), 8), "Workflow Runs"@, 14, true), 4), items)
    }
}

/// The whole report: the title, then the issues, pull requests, security
/// alerts and workflow runs sections.
pub open spec fn report(
    issues: Seq<Issue>,
    pulls: Seq<PullRequest>,
    alerts: Seq<SecurityAlert>,
    runs: Seq<WorkflowRun>,
) -> Layout {
    let title = skip(put(start(), "GitHub Export Report"@, 18, true), 12);
    runs_section(alerts_section(pulls_section(issues_section(title, issues), pulls), alerts), runs)
}

// ── Executable layout ─────────────────────────────────────────────────────

struct Cursor {
    page: usize,
    y: i64,
    lines: Vec<PdfLine>,
}

spec fn cursor_view(c: Cursor) -> Layout {
    Layout { page: c.page as nat, y: c.y as int, lines: lines_view(c.lines@) }
}

/// Room for `extra` more lines, a height on the page, and a page index no
/// larger than the number of lines written.
spec fn roomy(c: Cursor, extra: nat) -> bool {
    &&& 0 <= c.y <= TOP_Y
    &&& c.page <= c.lines.len()
    &&& c.lines.len() + extra <= usize::MAX
}

fn put_line(c: &mut Cursor, text: String, size: u32, bold: bool)
    requires
        0 <= old(c).y <= TOP_Y,
        old(c).lines.len() < usize::MAX,
    ensures
        cursor_view(*final(c)) == put(cursor_view(*old(c)), text@, size as nat, bold),
        final(c).lines.len() == old(c).lines.len() + 1,
        final(c).page == old(c).page,
{
    let line = PdfLine { page: c.page, y: c.y, size, bold, text };
    let ghost lv = line_view(line);
    c.lines.push(line);
    c.y = c.y - LINE_H;
    proof {
        assert(lines_view(c.lines@) =~= lines_view(old(c).lines@).push(lv));
    }
}

fn need_lines(c: &mut Cursor, n: i64)
    requires
        1 <= n <= 7,
        0 <= old(c).y <= TOP_Y,
        old(c).page <= old(c).lines.len(),
        old(c).lines.len() < usize::MAX,
    ensures
        cursor_view(*final(c)) == need(cursor_view(*old(c)), n as nat),
        final(c).y >= BOTTOM_Y + LINE_H * n,
        final(c).y <= TOP_Y,
        final(c).page <= final(c).lines.len() + 1,
        final(c).lines == old(c).lines,
{
    if c.y < BOTTOM_Y + LINE_H * n {
        c.page = c.page + 1;
        c.y = TOP_Y;
    }
}

fn skip_down(c: &mut Cursor, d: i64)
    requires
        0 <= d <= old(c).y,
    ensures
        cursor_view(*final(c)) == skip(cursor_view(*old(c)), d as int),
        final(c).lines == old(c).lines,
        final(c).page == old(c).page,
{
    c.y = c.y - d;
}

fn heading_text(number: u64, title: &String) -> (r: String)
    ensures
        r@ == truncated("#"@ + decimal(number as nat) + ": "@ + title@, 80),
{
    let mut s = String::from_str("#");
    s.append(decimal_text(number).as_str());
    s.append(": ");
    s.append(title.as_str());
    truncate(s.as_str(), 80)
}

fn put_issue(c: &mut Cursor, i: &Issue)
    requires
        roomy(*old(c), 6),
    ensures
        cursor_view(*final(c)) == issue_block(cursor_view(*old(c)), *i),
        roomy(*final(c), 0),
        final(c).lines.len() <= old(c).lines.len() + 6,
{
    need_lines(c, 7);
    put_line(c, heading_text(i.number, &i.title), 11, true);

    let mut meta = String::from_str("State: ");
    meta.append(i.state.as_str());
    meta.append("  |  Author: ");
    meta.append(i.author.as_str());
    meta.append("  |  Comments: ");
    meta.append(decimal_text(i.comments as u64).as_str());
    put_line(c, meta, 9, false);

    if i.labels.len() > 0 {
        let mut labels = String::from_str("Labels: ");
        let joined_labels = join_text(&i.labels, ", ");
        labels.append(truncate(joined_labels.as_str(), 70).as_str());
        put_line(c, labels, 9, false);
    }

    let mut created = String::from_str("Created: ");
    created.append(i.created_at.date_ymd().as_str());
    put_line(c, created, 9, false);

    put_line(c, truncate(i.html_url.as_str(), 90), 9, false);

    match &i.body {
        Some(b) => {
            if !b.as_str().is_empty() {
                let mut body = String::from_str("Body: ");
                let flat = flatten_newlines(b.as_str());
                body.append(truncate(flat.as_str(), 100).as_str());
                put_line(c, body, 8, false);
            }
        }
        None => {}
    }
    skip_down(c, 4);
}

fn put_pull(c: &mut Cursor, p: &PullRequest)
    requires
        roomy(*old(c), 6),
    ensures
        cursor_view(*final(c)) == pull_block(cursor_view(*old(c)), *p),
        roomy(*final(c), 0),
        final(c).lines.len() <= old(c).lines.len() + 6,
{
    need_lines(c, 5);
    put_line(c, heading_text(p.number, &p.title), 11, true);

    let mut meta = String::from_str("State: ");
    meta.append(p.state.as_str());
    meta.append("  |  Author: ");
    meta.append(p.author.as_str());
    meta.append("  |  Draft: ");
    meta.append(bool_text(p.draft).as_str());
    put_line(c, meta, 9, false);

    let mut branches = String::from_str("Head: ");
    branches.append(p.head_branch.as_str());
    branches.append("  ->  Base: ");
    branches.append(p.base_branch.as_str());
    put_line(c, branches, 9, false);

    put_line(c, truncate(p.html_url.as_str(), 90), 9, false);
    skip_down(c, 4);
}

fn put_alert(c: &mut Cursor, a: &SecurityAlert)
    requires
        roomy(*old(c), 6),
    ensures
        cursor_view(*final(c)) == alert_block(cursor_view(*old(c)), *a),
        roomy(*final(c), 0),
        final(c).lines.len() <= old(c).lines.len() + 6,
{
    need_lines(c, 5);
    let mut head = String::from_str("#");
    head.append(decimal_text(a.id).as_str());
    head.append(" [");
    head.append(a.severity.as_str());
    head.append("]: ");
    head.append(a.summary.as_str());
    put_line(c, truncate(head.as_str(), 80), 11, true);

    match &a.package_name {
        Some(pkg) => {
            let mut line = String::from_str("Package: ");
            line.append(pkg.as_str());
            line.append("  Vulnerable: ");
            line.append(text_or(&a.vulnerable_version_range, "N/A").as_str());
            line.append("  Patched: ");
            line.append(text_or(&a.patched_version, "N/A").as_str());
            put_line(c, line, 9, false);
        }
        None => {}
    }
    put_line(c, truncate(a.html_url.as_str(), 90), 9, false);
    skip_down(c, 4);
}

fn put_run(c: &mut Cursor, r: &WorkflowRun)
    requires
        roomy(*old(c), 6),
    ensures
        cursor_view(*final(c)) == run_block(cursor_view(*old(c)), *r),
        roomy(*final(c), 0),
        final(c).lines.len() <= old(c).lines.len() + 6,
{
    need_lines(c, 5);
    let mut head = String::from_str(r.name.as_str());
    head.append(" [Branch: ");
    head.append(text_or(&r.head_branch, "N/A").as_str());
    head.append("]");
    put_line(c, truncate(head.as_str(), 80), 11, true);

    let mut status = String::from_str("Status: ");
    status.append(r.status.as_str());
    status.append("  |  Conclusion: ");
    status.append(text_or(&r.conclusion, "N/A").as_str());
    status.append("  |  Actor: ");
    status.append(r.actor_login.as_str());
    put_line(c, status, 9, false);

    let mut started = String::from_str("Started: ");
    started.append(text_or(&r.run_started_at, r.created_at.as_str()).as_str());
    put_line(c, started, 9, false);

    put_line(c, truncate(r.html_url.as_str(), 90), 9, false);
    skip_down(c, 4);
}


fn put_issues(c: &mut Cursor, items: &[Issue])
    requires
        roomy(*old(c), 6 * items@.len() + 1),
    ensures
        cursor_view(*final(c)) == issues_section(cursor_view(*old(c)), items@),
        roomy(*final(c), 0),
        final(c).lines.len() <= old(c).lines.len() + 6 * items@.len() + 1,
{
    let n = items.len();
    if n == 0 {
        return;
    }
    need_lines(c, 3);
    put_line(c, String::from_str("Issues"), 14, true);
    skip_down(c, 4);
    let ghost s0 = cursor_view(*c);
    let ghost base = c.lines.len();
    for k in 0..n
        invariant
            n == items@.len(),
            cursor_view(*c) == issue_blocks(s0, items@.take(k as int)),
            roomy(*c, 6 * (n - k) as nat),
            c.lines.len() <= base + 6 * k,
    {
        proof {
            assert(items@.take(k + 1).drop_last() =~= items@.take(k as int));
            assert(items@.take(k + 1).last() == items@[k as int]);
        }
        put_issue(c, &items[k]);
    }
    proof { assert(items@.take(n as int) =~= items@); }
}

fn put_pulls(c: &mut Cursor, items: &[PullRequest])
    requires
        roomy(*old(c), 6 * items@.len() + 1),
    ensures
        cursor_view(*final(c)) == pulls_section(cursor_view(*old(c)), items@),
        roomy(*final(c), 0),
        final(c).lines.len() <= old(c).lines.len() + 6 * items@.len() + 1,
{
    let n = items.len();
    if n == 0 {
        return;
    }
    need_lines(c, 3);
    skip_down(c, 8);
    put_line(c, String::from_str("Pull Requests"), 14, true);
    skip_down(c, 4);
    let ghost s0 = cursor_view(*c);
    let ghost base = c.lines.len();
    for k in 0..n
        invariant
            n == items@.len(),
            cursor_view(*c) == pull_blocks(s0, items@.take(k as int)),
            roomy(*c, 6 * (n - k) as nat),
            c.lines.len() <= base + 6 * k,
    {
        proof {
            assert(items@.take(k + 1).drop_last() =~= items@.take(k as int));
            assert(items@.take(k + 1).last() == items@[k as int]);
        }
        put_pull(c, &items[k]);
    }
    proof { assert(items@.take(n as int) =~= items@); }
}

fn put_alerts(c: &mut Cursor, items: &[SecurityAlert])
    requires
        roomy(*old(c), 6 * items@.len() + 1),
    ensures
        cursor_view(*final(c)) == alerts_section(cursor_view(*old(c)), items@),
        roomy(*final(c), 0),
        final(c).lines.len() <= old(c).lines.len() + 6 * items@.len() + 1,
{
    let n = items.len();
    if n == 0 {
        return;
    }
    need_lines(c, 3);
    skip_down(c, 8);
    put_line(c, String::from_str("Security Alerts"), 14, true);
    skip_down(c, 4);
    let ghost s0 = cursor_view(*c);
    let ghost base = c.lines.len();
    for k in 0..n
        invariant
            n == items@.len(),
            cursor_view(*c) == alert_blocks(s0, items@.take(k as int)),
            roomy(*c, 6 * (n - k) as nat),
            c.lines.len() <= base + 6 * k,
    {
        proof {
            assert(items@.take(k + 1).drop_last() =~= items@.take(k as int));
            assert(items@.take(k + 1).last() == items@[k as int]);
        }
        put_alert(c, &items[k]);
    }
    proof { assert(items@.take(n as int) =~= items@); }
}

fn put_runs(c: &mut Cursor, items: &[WorkflowRun])
    requires
        roomy(*old(c), 6 * items@.len() + 1),
    ensures
        cursor_view(*final(c)) == runs_section(cursor_view(*old(c)), items@),
        roomy(*final(c), 0),
        final(c).lines.len() <= old(c).lines.len() + 6 * items@.len() + 1,
{
    let n = items.len();
    if n == 0 {
        return;
    }
    need_lines(c, 3);
    skip_down(c, 8);
    put_line(c, String::from_str("Workflow Runs"), 14, true);
    skip_down(c, 4);
    let ghost s0 = cursor_view(*c);
    let ghost base = c.lines.len();
    for k in 0..n
        invariant
            n == items@.len(),
            cursor_view(*c) == run_blocks(s0, items@.take(k as int)),
            roomy(*c, 6 * (n - k) as nat),
            c.lines.len() <= base + 6 * k,
    {
        proof {
            assert(items@.take(k + 1).drop_last() =~= items@.take(k as int));
            assert(items@.take(k + 1).last() == items@[k as int]);
        }
        put_run(c, &items[k]);
    }
    proof { assert(items@.take(n as int) =~= items@); }
}

/// Lays out the report on issues, pull requests, security alerts and
/// workflow runs: a title, then one section per non-empty kind, each item
/// kept whole on one page.
///
/// The bound on the number of items only keeps the count of lines within
/// `usize`.
pub fn export_to_pdf(
    issues: &[Issue],
    pulls: &[PullRequest],
    alerts: &[SecurityAlert],
    workflow_runs: &[WorkflowRun],
) -> (r: PdfReport)
    requires
        6 * (issues@.len() + pulls@.len() + alerts@.len() + workflow_runs@.len()) + 8 <= usize::MAX,
    ensures
        lines_view(r.lines@) == report(issues@, pulls@, alerts@, workflow_runs@).lines,
        r.pages == report(issues@, pulls@, alerts@, workflow_runs@).page + 1,
{
    let mut c = Cursor { page: 0, y: TOP_Y, lines: Vec::new() };
    proof { assert(lines_view(c.lines@) =~= seq![]); }
    put_line(&mut c, String::from_str("GitHub Export Report"), 18, true);
    skip_down(&mut c, 12);
    put_issues(&mut c, issues);
    put_pulls(&mut c, pulls);
    put_alerts(&mut c, alerts);
    put_runs(&mut c, workflow_runs);
    PdfReport { pages: c.page + 1, lines: c.lines }
}


// ── Laws of the layout ────────────────────────────────────────────────────

/// Consecutive lines either stay on one page, the later one at least a line
/// lower, or the later one opens the next page.
pub open spec fn in_reading_order(a: PlacedText, b: PlacedText) -> bool {
    ||| (b.page == a.page && b.y + LINE_H <= a.y)
    ||| b.page == a.page + 1
}

/// A layout whose lines all lie between the margins and follow each other
/// in reading order, with the current position just below the last line.
pub open spec fn tidy(s: Layout) -> bool {
    &&& 0 <= s.y <= TOP_Y
    &&& forall|k: int| 0 <= k < s.lines.len() ==> BOTTOM_Y <= #[trigger] s.lines[k].y <= TOP_Y
    &&& forall|k: int| 0 <= k < s.lines.len() - 1 ==> in_reading_order(#[trigger] s.lines[k], s.lines[k + 1])
    &&& s.lines.len() == 0 ==> s.page == 0
    &&& s.lines.len() > 0 ==> s.lines[0].page == 0
    &&& s.lines.len() > 0 ==> s.page == s.lines.last().page && s.y + LINE_H <= s.lines.last().y
}

/// Like [`tidy`], but the current position may already have moved on to a
/// fresh page.
spec fn tidy_or_fresh(s: Layout) -> bool {
    &&& 0 <= s.y <= TOP_Y
    &&& forall|k: int| 0 <= k < s.lines.len() ==> BOTTOM_Y <= #[trigger] s.lines[k].y <= TOP_Y
    &&& forall|k: int| 0 <= k < s.lines.len() - 1 ==> in_reading_order(#[trigger] s.lines[k], s.lines[k + 1])
    &&& s.lines.len() == 0 ==> s.page == 0
    &&& s.lines.len() > 0 ==> s.lines[0].page == 0
    &&& s.lines.len() > 0 ==> in_reading_order(s.lines.last(), PlacedText { page: s.page, y: s.y, size: 0, bold: false, text: seq![] })
}

proof fn lemma_put(s: Layout, t: Seq<char>, size: nat, bold: bool)
    requires
        tidy_or_fresh(s),
        s.y >= BOTTOM_Y,
    ensures
        tidy(put(s, t, size, bold)),
        put(s, t, size, bold).y == s.y - LINE_H,
{
    let r = put(s, t, size, bold);
    assert forall|k: int| 0 <= k < r.lines.len() - 1 implies in_reading_order(#[trigger] r.lines[k], r.lines[k + 1]) by {
        if k < s.lines.len() - 1 {
            assert(r.lines[k] == s.lines[k] && r.lines[k + 1] == s.lines[k + 1]);
        } else {
            assert(r.lines[k] == s.lines.last());
        }
    }
    assert forall|k: int| 0 <= k < r.lines.len() implies BOTTOM_Y <= #[trigger] r.lines[k].y <= TOP_Y by {
        if k < s.lines.len() {
            assert(r.lines[k] == s.lines[k]);
        }
    }
}

proof fn lemma_need(s: Layout, n: nat)
    requires
        tidy(s),
        s.lines.len() > 0,
        1 <= n <= 7,
    ensures
        tidy_or_fresh(need(s, n)),
        need(s, n).y >= BOTTOM_Y + LINE_H * n,
        need(s, n).lines == s.lines,
{
}

proof fn lemma_skip(s: Layout, d: int)
    requires
        tidy(s),
        0 <= d <= s.y,
    ensures
        tidy(skip(s, d)),
        skip(s, d).y == s.y - d,
{
}

proof fn lemma_issue_block(s: Layout, i: Issue)
    requires
        tidy(s),
        s.lines.len() > 0,
    ensures
        tidy(issue_block(s, i)),
{
    let s0 = need(s, 7);
    lemma_need(s, 7);
    let s1 = put(s0, issue_heading(i), 11, true);
    lemma_put(s0, issue_heading(i), 11, true);
    let s2 = put(s1, issue_meta(i), 9, false);
    lemma_put(s1, issue_meta(i), 9, false);
    let s3 = if i.labels@.len() > 0 { put(s2, issue_labels(i), 9, false) } else { s2 };
    if i.labels@.len() > 0 {
        lemma_put(s2, issue_labels(i), 9, false);
    }
    let s4 = put(s3, issue_created(i), 9, false);
    lemma_put(s3, issue_created(i), 9, false);
    let s5 = put(s4, truncated(i.html_url@, 90), 9, false);
    lemma_put(s4, truncated(i.html_url@, 90), 9, false);
    let s6 = match i.body {
        Some(b) => if b@.len() > 0 { put(s5, body_line(b@), 8, false) } else { s5 },
        None => s5,
    };
    match i.body {
        Some(b) => if b@.len() > 0 { lemma_put(s5, body_line(b@), 8, false); },
        None => {},
    }
    lemma_skip(s6, 4);
}

proof fn lemma_pull_block(s: Layout, p: PullRequest)
    requires
        tidy(s),
        s.lines.len() > 0,
    ensures
        tidy(pull_block(s, p)),
{
    let s0 = need(s, 5);
    lemma_need(s, 5);
    let s1 = put(s0, pull_heading(p), 11, true);
    lemma_put(s0, pull_heading(p), 11, true);
    let s2 = put(s1, pull_meta(p), 9, false);
    lemma_put(s1, pull_meta(p), 9, false);
    let s3 = put(s2, pull_branches(p), 9, false);
    lemma_put(s2, pull_branches(p), 9, false);
    let s4 = put(s3, truncated(p.html_url@, 90), 9, false);
    lemma_put(s3, truncated(p.html_url@, 90), 9, false);
    lemma_skip(s4, 4);
}

proof fn lemma_alert_block(s: Layout, a: SecurityAlert)
    requires
        tidy(s),
        s.lines.len() > 0,
    ensures
        tidy(alert_block(s, a)),
{
    let s0 = need(s, 5);
    lemma_need(s, 5);
    let s1 = put(s0, alert_heading(a), 11, true);
    lemma_put(s0, alert_heading(a), 11, true);
    let s2 = match a.package_name {
        Some(pkg) => put(s1, alert_package(a, pkg@), 9, false),
        None => s1,
    };
    match a.package_name {
        Some(pkg) => { lemma_put(s1, alert_package(a, pkg@), 9, false); },
        None => {},
    }
    let s3 = put(s2, truncated(a.html_url@, 90), 9, false);
    lemma_put(s2, truncated(a.html_url@, 90), 9, false);
    lemma_skip(s3, 4);
}

proof fn lemma_run_block(s: Layout, r: WorkflowRun)
    requires
        tidy(s),
        s.lines.len() > 0,
    ensures
        tidy(run_block(s, r)),
{
    let s0 = need(s, 5);
    lemma_need(s, 5);
    let s1 = put(s0, run_heading(r), 11, true);
    lemma_put(s0, run_heading(r), 11, true);
    let s2 = put(s1, run_status(r), 9, false);
    lemma_put(s1, run_status(r), 9, false);
    let s3 = put(s2, run_started(r), 9, false);
    lemma_put(s2, run_started(r), 9, false);
    let s4 = put(s3, truncated(r.html_url@, 90), 9, false);
    lemma_put(s3, truncated(r.html_url@, 90), 9, false);
    lemma_skip(s4, 4);
}

proof fn lemma_issue_blocks(s: Layout, items: Seq<Issue>)
    requires
        tidy(s),
        s.lines.len() > 0,
    ensures
        tidy(issue_blocks(s, items)),
        issue_blocks(s, items).lines.len() > 0,
    decreases items.len(),
{
    if items.len() > 0 {
        lemma_issue_blocks(s, items.drop_last());
        lemma_issue_block(issue_blocks(s, items.drop_last()), items.last());
    }
}

proof fn lemma_pull_blocks(s: Layout, items: Seq<PullRequest>)
    requires
        tidy(s),
        s.lines.len() > 0,
    ensures
        tidy(pull_blocks(s, items)),
        pull_blocks(s, items).lines.len() > 0,
    decreases items.len(),
{
    if items.len() > 0 {
        lemma_pull_blocks(s, items.drop_last());
        lemma_pull_block(pull_blocks(s, items.drop_last()), items.last());
    }
}

proof fn lemma_alert_blocks(s: Layout, items: Seq<SecurityAlert>)
    requires
        tidy(s),
        s.lines.len() > 0,
    ensures
        tidy(alert_blocks(s, items)),
        alert_blocks(s, items).lines.len() > 0,
    decreases items.len(),
{
    if items.len() > 0 {
        lemma_alert_blocks(s, items.drop_last());
        lemma_alert_block(alert_blocks(s, items.drop_last()), items.last());
    }
}

proof fn lemma_run_blocks(s: Layout, items: Seq<WorkflowRun>)
    requires
        tidy(s),
        s.lines.len() > 0,
    ensures
        tidy(run_blocks(s, items)),
        run_blocks(s, items).lines.len() > 0,
    decreases items.len(),
{
    if items.len() > 0 {
        lemma_run_blocks(s, items.drop_last());
        lemma_run_block(run_blocks(s, items.drop_last()), items.last());
    }
}

/// Opens a section: a fresh page when fewer than three lines remain, an
/// optional gap, the heading, and a small gap below it.
proof fn lemma_heading(s: Layout, gap: int, title: Seq<char>)
    requires
        tidy(s),
        s.lines.len() > 0,
        gap == 0 || gap == 8,
    ensures
        tidy(skip(put(skip(need(s, 3), gap), title, 14, true), 4)),
        skip(put(skip(need(s, 3), gap), title, 14, true), 4).lines.len() > 0,
{
    lemma_need(s, 3);
    let s1 = skip(need(s, 3), gap);
    assert(tidy_or_fresh(s1));
    lemma_put(s1, title, 14, true);
    lemma_skip(put(s1, title, 14, true), 4);
}

proof fn lemma_report_tidy(
    issues: Seq<Issue>,
    pulls: Seq<PullRequest>,
    alerts: Seq<SecurityAlert>,
    runs: Seq<WorkflowRun>,
)
    ensures
        tidy(report(issues, pulls, alerts, runs)),
{
    let s0 = start();
    assert(tidy_or_fresh(s0));
    lemma_put(s0, "GitHub Export Report"@, 18, true);
    let t = skip(put(s0, "GitHub Export Report"@, 18, true), 12);
    lemma_skip(put(s0, "GitHub Export Report"@, 18, true), 12);

    let a = issues_section(t, issues);
    if issues.len() > 0 {
        lemma_heading(t, 0, "Issues"@);
        assert(skip(put(need(t, 3), "Issues"@, 14, true), 4) == skip(put(skip(need(t, 3), 0), "Issues"@, 14, true), 4));
        lemma_issue_blocks(skip(put(need(t, 3), "Issues"@, 14, true), 4), issues);
    }
    let b = pulls_section(a, pulls);
    if pulls.len() > 0 {
        lemma_heading(a, 8, "Pull Requests"@);
        lemma_pull_blocks(skip(put(skip(need(a, 3), 8), "Pull Requests"@, 14, true), 4), pulls);
    }
    let c = alerts_section(b, alerts);
    if alerts.len() > 0 {
        lemma_heading(b, 8, "Security Alerts"@);
        lemma_alert_blocks(skip(put(skip(need(b, 3), 8), "Security Alerts"@, 14, true), 4), alerts);
    }
    if runs.len() > 0 {
        lemma_heading(c, 8, "Workflow Runs"@);
        lemma_run_blocks(skip(put(skip(need(c, 3), 8), "Workflow Runs"@, 14, true), 4), runs);
    }
}

/// No text of the report is placed above the top line (280 mm) or below the
/// bottom margin (20 mm).
pub proof fn report_stays_within_margins(
    issues: Seq<Issue>,
    pulls: Seq<PullRequest>,
    alerts: Seq<SecurityAlert>,
    runs: Seq<WorkflowRun>,
)
    ensures
        forall|k: int| 0 <= k < report(issues, pulls, alerts, runs).lines.len() ==>
            BOTTOM_Y <= #[trigger] report(issues, pulls, alerts, runs).lines[k].y <= TOP_Y,
{
    lemma_report_tidy(issues, pulls, alerts, runs);
}

/// The report's lines come in reading order: the first one on the first
/// page, each next one either at least a line lower on the same page or at
/// the top of the very next page, so lines never overlap and no page is
/// left empty; the page count is one more than the last line's page.
pub proof fn report_reads_in_order(
    issues: Seq<Issue>,
    pulls: Seq<PullRequest>,
    alerts: Seq<SecurityAlert>,
    runs: Seq<WorkflowRun>,
)
    ensures
        report(issues, pulls, alerts, runs).lines.len() > 0,
        report(issues, pulls, alerts, runs).lines[0].page == 0,
        report(issues, pulls, alerts, runs).page == report(issues, pulls, alerts, runs).lines.last().page,
        forall|k: int| 0 <= k < report(issues, pulls, alerts, runs).lines.len() - 1 ==>
            in_reading_order(
                #[trigger] report(issues, pulls, alerts, runs).lines[k],
                report(issues, pulls, alerts, runs).lines[k + 1],
            ),
{
    lemma_report_tidy(issues, pulls, alerts, runs);
    lemma_report_nonempty(issues, pulls, alerts, runs);
}

/// Whether every line placed on the way from `before` to `after` is on
/// `after`'s page, the earlier lines kept.
pub open spec fn placed_on_one_page(before: Layout, after: Layout) -> bool {
    &&& before.lines.len() <= after.lines.len()
    &&& after.lines.take(before.lines.len() as int) == before.lines
    &&& forall|k: int| before.lines.len() <= k < after.lines.len() ==> #[trigger] after.lines[k].page == after.page
}

/// No issue, pull request, alert or workflow run is split across pages: a
/// new page is started before an item that would not fit, never inside one.
pub proof fn items_are_not_split(s: Layout, i: Issue, p: PullRequest, a: SecurityAlert, r: WorkflowRun)
    ensures
        placed_on_one_page(s, issue_block(s, i)),
        placed_on_one_page(s, pull_block(s, p)),
        placed_on_one_page(s, alert_block(s, a)),
        placed_on_one_page(s, run_block(s, r)),
{
    assert(issue_block(s, i).lines.take(s.lines.len() as int) =~= s.lines);
    assert(pull_block(s, p).lines.take(s.lines.len() as int) =~= s.lines);
    assert(alert_block(s, a).lines.take(s.lines.len() as int) =~= s.lines);
    assert(run_block(s, r).lines.take(s.lines.len() as int) =~= s.lines);
}

proof fn lemma_grows_issue(s: Layout, items: Seq<Issue>)
    ensures
        issue_blocks(s, items).lines.len() >= s.lines.len(),
    decreases items.len(),
{
    if items.len() > 0 {
        lemma_grows_issue(s, items.drop_last());
    }
}

proof fn lemma_grows_pull(s: Layout, items: Seq<PullRequest>)
    ensures
        pull_blocks(s, items).lines.len() >= s.lines.len(),
    decreases items.len(),
{
    if items.len() > 0 {
        lemma_grows_pull(s, items.drop_last());
    }
}

proof fn lemma_grows_alert(s: Layout, items: Seq<SecurityAlert>)
    ensures
        alert_blocks(s, items).lines.len() >= s.lines.len(),
    decreases items.len(),
{
    if items.len() > 0 {
        lemma_grows_alert(s, items.drop_last());
    }
}

proof fn lemma_grows_run(s: Layout, items: Seq<WorkflowRun>)
    ensures
        run_blocks(s, items).lines.len() >= s.lines.len(),
    decreases items.len(),
{
    if items.len() > 0 {
        lemma_grows_run(s, items.drop_last());
    }
}

proof fn lemma_report_nonempty(
    issues: Seq<Issue>,
    pulls: Seq<PullRequest>,
    alerts: Seq<SecurityAlert>,
    runs: Seq<WorkflowRun>,
)
    ensures
        report(issues, pulls, alerts, runs).lines.len() > 0,
{
    let t = skip(put(start(), "GitHub Export Report"@, 18, true), 12);
    let h1 = skip(put(need(t, 3), "Issues"@, 14, true), 4);
    lemma_grows_issue(h1, issues);
    let a = issues_section(t, issues);
    let h2 = skip(put(skip(need(a, 3), 8), "Pull Requests"@, 14, true), 4);
    lemma_grows_pull(h2, pulls);
    let b = pulls_section(a, pulls);
    let h3 = skip(put(skip(need(b, 3), 8), "Security Alerts"@, 14, true), 4);
    lemma_grows_alert(h3, alerts);
    let c = alerts_section(b, alerts);
    let h4 = skip(put(skip(need(c, 3), 8), "Workflow Runs"@, 14, true), 4);
    lemma_grows_run(h4, runs);
}

// ── What the report shows of each item ────────────────────────────────────

/// `b` keeps every line of `a` and may add more after them.
spec fn extends(a: Layout, b: Layout) -> bool {
    &&& a.lines.len() <= b.lines.len()
    &&& forall|i: int| 0 <= i < a.lines.len() ==> #[trigger] b.lines[i] == a.lines[i]
}

proof fn lemma_extends_trans(a: Layout, b: Layout, c: Layout)
    requires
        extends(a, b),
        extends(b, c),
    ensures
        extends(a, c),
{
    assert forall|i: int| 0 <= i < a.lines.len() implies #[trigger] c.lines[i] == a.lines[i] by {
        assert(c.lines[i] == b.lines[i]);
    }
}

proof fn lemma_put_extends(s: Layout, t: Seq<char>, size: nat, bold: bool)
    ensures
        extends(s, put(s, t, size, bold)),
        put(s, t, size, bold).lines.len() == s.lines.len() + 1,
        put(s, t, size, bold).lines[s.lines.len() as int] == (PlacedText { page: s.page, y: s.y, size, bold, text: t }),
{
    assert forall|i: int| 0 <= i < s.lines.len() implies #[trigger] put(s, t, size, bold).lines[i] == s.lines[i] by {}
}

#[verifier::opaque]
spec fn shows_issue(l: Seq<PlacedText>, j: int, i: Issue) -> bool {
    let o: int = if i.labels@.len() > 0 { 1 } else { 0 };
    &&& 0 <= j && j + 3 + o < l.len()
    &&& l[j].text == truncated("#"@ + decimal(i.number as nat) + ": "@ + i.title@, 80) && l[j].size == 11 && l[j].bold
    &&& l[j + 1].text == "State: "@ + i.state@ + "  |  Author: "@ + i.author@ + "  |  Comments: "@ + decimal(i.comments as nat)
    &&& l[j + 1].size == 9 && !l[j + 1].bold
    &&& i.labels@.len() > 0 ==> l[j + 2].text == "Labels: "@ + truncated(joined(i.labels.deep_view(), ", "@), 70)
        && l[j + 2].size == 9 && !l[j + 2].bold
    &&& l[j + 2 + o].text == "Created: "@ + chrono_ymd(i.created_at.spec_secs(), i.created_at.spec_nanos())
    &&& l[j + 2 + o].size == 9 && !l[j + 2 + o].bold
    &&& l[j + 3 + o].text == truncated(i.html_url@, 90) && l[j + 3 + o].size == 9 && !l[j + 3 + o].bold
    &&& i.body matches Some(b) ==> (b@.len() > 0 ==> j + 4 + o < l.len()
        && l[j + 4 + o].text == "Body: "@ + truncated(flattened(b@), 100) && l[j + 4 + o].size == 8 && !l[j + 4 + o].bold)
}

#[verifier::opaque]
spec fn shows_pull(l: Seq<PlacedText>, j: int, p: PullRequest) -> bool {
    &&& 0 <= j && j + 3 < l.len()
    &&& l[j].text == truncated("#"@ + decimal(p.number as nat) + ": "@ + p.title@, 80) && l[j].size == 11 && l[j].bold
    &&& l[j + 1].text == "State: "@ + p.state@ + "  |  Author: "@ + p.author@ + "  |  Draft: "@
        + (if p.draft { "true"@ } else { "false"@ })
    &&& l[j + 1].size == 9 && !l[j + 1].bold
    &&& l[j + 2].text == "Head: "@ + p.head_branch@ + "  ->  Base: "@ + p.base_branch@
    &&& l[j + 2].size == 9 && !l[j + 2].bold
    &&& l[j + 3].text == truncated(p.html_url@, 90) && l[j + 3].size == 9 && !l[j + 3].bold
}

#[verifier::opaque]
spec fn shows_alert(l: Seq<PlacedText>, j: int, a: SecurityAlert) -> bool {
    let o: int = if a.package_name is Some { 1 } else { 0 };
    &&& 0 <= j && j + 1 + o < l.len()
    &&& l[j].text == truncated("#"@ + decimal(a.id as nat) + " ["@ + a.severity@ + "]: "@ + a.summary@, 80)
    &&& l[j].size == 11 && l[j].bold
    &&& a.package_name matches Some(pkg) ==> (l[j + 1].text == "Package: "@ + pkg@ + "  Vulnerable: "@
        + (match a.vulnerable_version_range { Some(t) => t@, None => "N/A"@ }) + "  Patched: "@
        + (match a.patched_version { Some(t) => t@, None => "N/A"@ })
        && l[j + 1].size == 9 && !l[j + 1].bold)
    &&& l[j + 1 + o].text == truncated(a.html_url@, 90) && l[j + 1 + o].size == 9 && !l[j + 1 + o].bold
}

#[verifier::opaque]
spec fn shows_run(l: Seq<PlacedText>, j: int, r: WorkflowRun) -> bool {
    &&& 0 <= j && j + 3 < l.len()
    &&& l[j].text == truncated(r.name@ + " [Branch: "@ + (match r.head_branch { Some(b) => b@, None => "N/A"@ }) + "]"@, 80)
    &&& l[j].size == 11 && l[j].bold
    &&& l[j + 1].text == "Status: "@ + r.status@ + "  |  Conclusion: "@
        + (match r.conclusion { Some(c) => c@, None => "N/A"@ }) + "  |  Actor: "@ + r.actor_login@
    &&& l[j + 1].size == 9 && !l[j + 1].bold
    &&& l[j + 2].text == "Started: "@ + (match r.run_started_at { Some(t) => t@, None => r.created_at@ })
    &&& l[j + 2].size == 9 && !l[j + 2].bold
    &&& l[j + 3].text == truncated(r.html_url@, 90) && l[j + 3].size == 9 && !l[j + 3].bold
}

proof fn lemma_shows_kept(a: Layout, b: Layout, j: int, i: Issue, p: PullRequest, al: SecurityAlert, r: WorkflowRun)
    requires
        extends(a, b),
    ensures
        shows_issue(a.lines, j, i) ==> shows_issue(b.lines, j, i),
        shows_pull(a.lines, j, p) ==> shows_pull(b.lines, j, p),
        shows_alert(a.lines, j, al) ==> shows_alert(b.lines, j, al),
        shows_run(a.lines, j, r) ==> shows_run(b.lines, j, r),
{
    reveal(shows_issue);
    reveal(shows_pull);
    reveal(shows_alert);
    reveal(shows_run);
    if 0 <= j && j < a.lines.len() {
        assert(b.lines[j] == a.lines[j]);
    }
    if 0 <= j + 1 && j + 1 < a.lines.len() {
        assert(b.lines[j + 1] == a.lines[j + 1]);
    }
    if 0 <= j + 2 && j + 2 < a.lines.len() {
        assert(b.lines[j + 2] == a.lines[j + 2]);
    }
    if 0 <= j + 3 && j + 3 < a.lines.len() {
        assert(b.lines[j + 3] == a.lines[j + 3]);
    }
    if 0 <= j + 4 && j + 4 < a.lines.len() {
        assert(b.lines[j + 4] == a.lines[j + 4]);
    }
    if 0 <= j + 5 && j + 5 < a.lines.len() {
        assert(b.lines[j + 5] == a.lines[j + 5]);
    }
}

proof fn lemma_run_block_shows(t: Layout, r: WorkflowRun)
    ensures
        extends(t, run_block(t, r)),
        shows_run(run_block(t, r).lines, t.lines.len() as int, r),
{
    reveal(shows_run);
    let n = need(t, 5);
    let s1 = put(n, run_heading(r), 11, true);
    let s2 = put(s1, run_status(r), 9, false);
    let s3 = put(s2, run_started(r), 9, false);
    let s4 = put(s3, truncated(r.html_url@, 90), 9, false);
    lemma_put_extends(n, run_heading(r), 11, true);
    lemma_put_extends(s1, run_status(r), 9, false);
    lemma_put_extends(s2, run_started(r), 9, false);
    lemma_put_extends(s3, truncated(r.html_url@, 90), 9, false);
    assert(extends(t, n));
    lemma_extends_trans(t, n, s1);
    lemma_extends_trans(t, s1, s2);
    lemma_extends_trans(t, s2, s3);
    lemma_extends_trans(t, s3, s4);
    let j = t.lines.len() as int;
    assert(s4.lines[j] == s1.lines[j]);
    assert(s4.lines[j + 1] == s2.lines[j + 1]);
    assert(s4.lines[j + 2] == s3.lines[j + 2]);
}

proof fn lemma_pull_block_shows(t: Layout, p: PullRequest)
    ensures
        extends(t, pull_block(t, p)),
        shows_pull(pull_block(t, p).lines, t.lines.len() as int, p),
{
    reveal(shows_pull);
    let n = need(t, 5);
    let s1 = put(n, pull_heading(p), 11, true);
    let s2 = put(s1, pull_meta(p), 9, false);
    let s3 = put(s2, pull_branches(p), 9, false);
    let s4 = put(s3, truncated(p.html_url@, 90), 9, false);
    lemma_put_extends(n, pull_heading(p), 11, true);
    lemma_put_extends(s1, pull_meta(p), 9, false);
    lemma_put_extends(s2, pull_branches(p), 9, false);
    lemma_put_extends(s3, truncated(p.html_url@, 90), 9, false);
    assert(extends(t, n));
    lemma_extends_trans(t, n, s1);
    lemma_extends_trans(t, s1, s2);
    lemma_extends_trans(t, s2, s3);
    lemma_extends_trans(t, s3, s4);
    let j = t.lines.len() as int;
    assert(s4.lines[j] == s1.lines[j]);
    assert(s4.lines[j + 1] == s2.lines[j + 1]);
    assert(s4.lines[j + 2] == s3.lines[j + 2]);
}

proof fn lemma_alert_block_shows(t: Layout, a: SecurityAlert)
    ensures
        extends(t, alert_block(t, a)),
        shows_alert(alert_block(t, a).lines, t.lines.len() as int, a),
{
    reveal(shows_alert);
    let n = need(t, 5);
    let s1 = put(n, alert_heading(a), 11, true);
    lemma_put_extends(n, alert_heading(a), 11, true);
    assert(extends(t, n));
    lemma_extends_trans(t, n, s1);
    let j = t.lines.len() as int;
    match a.package_name {
        Some(pkg) => {
            let s2 = put(s1, alert_package(a, pkg@), 9, false);
            let s3 = put(s2, truncated(a.html_url@, 90), 9, false);
            lemma_put_extends(s1, alert_package(a, pkg@), 9, false);
            lemma_put_extends(s2, truncated(a.html_url@, 90), 9, false);
            lemma_extends_trans(t, s1, s2);
            lemma_extends_trans(t, s2, s3);
            assert(s3.lines[j] == s1.lines[j]);
            assert(s3.lines[j + 1] == s2.lines[j + 1]);
        },
        None => {
            let s3 = put(s1, truncated(a.html_url@, 90), 9, false);
            lemma_put_extends(s1, truncated(a.html_url@, 90), 9, false);
            lemma_extends_trans(t, s1, s3);
            assert(s3.lines[j] == s1.lines[j]);
        },
    }
}

proof fn lemma_issue_block_shows(t: Layout, i: Issue)
    ensures
        extends(t, issue_block(t, i)),
        shows_issue(issue_block(t, i).lines, t.lines.len() as int, i),
{
    reveal(shows_issue);
    let n = need(t, 7);
    let s1 = put(n, issue_heading(i), 11, true);
    let s2 = put(s1, issue_meta(i), 9, false);
    let s3 = if i.labels@.len() > 0 { put(s2, issue_labels(i), 9, false) } else { s2 };
    let s4 = put(s3, issue_created(i), 9, false);
    let s5 = put(s4, truncated(i.html_url@, 90), 9, false);
    let s6 = match i.body {
        Some(b) => if b@.len() > 0 { put(s5, body_line(b@), 8, false) } else { s5 },
        None => s5,
    };
    assert(extends(t, n));
    lemma_put_extends(n, issue_heading(i), 11, true);
    lemma_put_extends(s1, issue_meta(i), 9, false);
    lemma_extends_trans(t, n, s1);
    lemma_extends_trans(t, s1, s2);
    if i.labels@.len() > 0 {
        lemma_put_extends(s2, issue_labels(i), 9, false);
        lemma_extends_trans(t, s2, s3);
    }
    lemma_put_extends(s3, issue_created(i), 9, false);
    lemma_put_extends(s4, truncated(i.html_url@, 90), 9, false);
    lemma_extends_trans(t, s3, s4);
    lemma_extends_trans(t, s4, s5);
    match i.body {
        Some(b) => if b@.len() > 0 {
            lemma_put_extends(s5, body_line(b@), 8, false);
            lemma_extends_trans(t, s5, s6);
        } else {
            assert(extends(s5, s6));
        },
        None => assert(extends(s5, s6)),
    }
    assert(issue_block(t, i) == skip(s6, 4));
    let j = t.lines.len() as int;
    let o: int = if i.labels@.len() > 0 { 1 } else { 0 };
    assert(extends(s1, s6)) by {
        lemma_extends_trans(s1, s2, s3);
        lemma_extends_trans(s1, s3, s4);
        lemma_extends_trans(s1, s4, s5);
        lemma_extends_trans(s1, s5, s6);
    }
    assert(s6.lines[j] == s1.lines[j]);
    assert(extends(s2, s6)) by {
        lemma_extends_trans(s2, s3, s4);
        lemma_extends_trans(s2, s4, s5);
        lemma_extends_trans(s2, s5, s6);
    }
    assert(s6.lines[j + 1] == s2.lines[j + 1]);
    if i.labels@.len() > 0 {
        assert(extends(s3, s6)) by {
            lemma_extends_trans(s3, s4, s5);
            lemma_extends_trans(s3, s5, s6);
        }
        assert(s6.lines[j + 2] == s3.lines[j + 2]);
    }
    assert(extends(s4, s6)) by {
        lemma_extends_trans(s4, s5, s6);
    }
    assert(s4.lines.len() == j + 3 + o);
    assert(s6.lines[j + 2 + o] == s4.lines[j + 2 + o]);
    assert(s6.lines[j + 3 + o] == s5.lines[j + 3 + o]);
}

/// Whether `x` is shown by lines of `l` from line `from` on.
spec fn shown_issue(l: Seq<PlacedText>, from: int, x: Issue) -> bool {
    exists|j: int| from <= j && #[trigger] shows_issue(l, j, x)
}

/// Whether `x` is shown by lines of `l` from line `from` on.
spec fn shown_pull(l: Seq<PlacedText>, from: int, x: PullRequest) -> bool {
    exists|j: int| from <= j && #[trigger] shows_pull(l, j, x)
}

/// Whether `x` is shown by lines of `l` from line `from` on.
spec fn shown_alert(l: Seq<PlacedText>, from: int, x: SecurityAlert) -> bool {
    exists|j: int| from <= j && #[trigger] shows_alert(l, j, x)
}

/// Whether `x` is shown by lines of `l` from line `from` on.
spec fn shown_run(l: Seq<PlacedText>, from: int, x: WorkflowRun) -> bool {
    exists|j: int| from <= j && #[trigger] shows_run(l, j, x)
}

proof fn lemma_issue_blocks_show(s: Layout, items: Seq<Issue>)
    ensures
        extends(s, issue_blocks(s, items)),
        forall|k: int| 0 <= k < items.len() ==> #[trigger] shown_issue(issue_blocks(s, items).lines, s.lines.len() as int, items[k]),
    decreases items.len(),
{
    if items.len() > 0 {
        let init = items.drop_last();
        lemma_issue_blocks_show(s, init);
        let prev = issue_blocks(s, init);
        let all = issue_blocks(s, items);
        lemma_issue_block_shows(prev, items.last());
        lemma_extends_trans(s, prev, all);
        assert forall|k: int| 0 <= k < items.len() implies #[trigger] shown_issue(all.lines, s.lines.len() as int, items[k]) by {
            if k < init.len() {
                assert(init[k] == items[k]);
                assert(shown_issue(prev.lines, s.lines.len() as int, init[k]));
                let j = choose|j: int| s.lines.len() <= j && #[trigger] shows_issue(prev.lines, j, init[k]);
                lemma_shows_kept(prev, all, j, items[k], arbitrary(), arbitrary(), arbitrary());
                assert(shows_issue(all.lines, j, items[k]));
            } else {
                assert(items[k] == items.last());
                let j = prev.lines.len() as int;
                assert(shows_issue(all.lines, j, items[k]));
            }
        }
    } else {
        assert(extends(s, issue_blocks(s, items)));
    }
}

proof fn lemma_pull_blocks_show(s: Layout, items: Seq<PullRequest>)
    ensures
        extends(s, pull_blocks(s, items)),
        forall|k: int| 0 <= k < items.len() ==> #[trigger] shown_pull(pull_blocks(s, items).lines, s.lines.len() as int, items[k]),
    decreases items.len(),
{
    if items.len() > 0 {
        let init = items.drop_last();
        lemma_pull_blocks_show(s, init);
        let prev = pull_blocks(s, init);
        let all = pull_blocks(s, items);
        lemma_pull_block_shows(prev, items.last());
        lemma_extends_trans(s, prev, all);
        assert forall|k: int| 0 <= k < items.len() implies #[trigger] shown_pull(all.lines, s.lines.len() as int, items[k]) by {
            if k < init.len() {
                assert(init[k] == items[k]);
                assert(shown_pull(prev.lines, s.lines.len() as int, init[k]));
                let j = choose|j: int| s.lines.len() <= j && #[trigger] shows_pull(prev.lines, j, init[k]);
                lemma_shows_kept(prev, all, j, arbitrary(), items[k], arbitrary(), arbitrary());
                assert(shows_pull(all.lines, j, items[k]));
            } else {
                assert(items[k] == items.last());
                let j = prev.lines.len() as int;
                assert(shows_pull(all.lines, j, items[k]));
            }
        }
    } else {
        assert(extends(s, pull_blocks(s, items)));
    }
}

proof fn lemma_alert_blocks_show(s: Layout, items: Seq<SecurityAlert>)
    ensures
        extends(s, alert_blocks(s, items)),
        forall|k: int| 0 <= k < items.len() ==> #[trigger] shown_alert(alert_blocks(s, items).lines, s.lines.len() as int, items[k]),
    decreases items.len(),
{
    if items.len() > 0 {
        let init = items.drop_last();
        lemma_alert_blocks_show(s, init);
        let prev = alert_blocks(s, init);
        let all = alert_blocks(s, items);
        lemma_alert_block_shows(prev, items.last());
        lemma_extends_trans(s, prev, all);
        assert forall|k: int| 0 <= k < items.len() implies #[trigger] shown_alert(all.lines, s.lines.len() as int, items[k]) by {
            if k < init.len() {
                assert(init[k] == items[k]);
                assert(shown_alert(prev.lines, s.lines.len() as int, init[k]));
                let j = choose|j: int| s.lines.len() <= j && #[trigger] shows_alert(prev.lines, j, init[k]);
                lemma_shows_kept(prev, all, j, arbitrary(), arbitrary(), items[k], arbitrary());
                assert(shows_alert(all.lines, j, items[k]));
            } else {
                assert(items[k] == items.last());
                let j = prev.lines.len() as int;
                assert(shows_alert(all.lines, j, items[k]));
            }
        }
    } else {
        assert(extends(s, alert_blocks(s, items)));
    }
}

proof fn lemma_run_blocks_show(s: Layout, items: Seq<WorkflowRun>)
    ensures
        extends(s, run_blocks(s, items)),
        forall|k: int| 0 <= k < items.len() ==> #[trigger] shown_run(run_blocks(s, items).lines, s.lines.len() as int, items[k]),
    decreases items.len(),
{
    if items.len() > 0 {
        let init = items.drop_last();
        lemma_run_blocks_show(s, init);
        let prev = run_blocks(s, init);
        let all = run_blocks(s, items);
        lemma_run_block_shows(prev, items.last());
        lemma_extends_trans(s, prev, all);
        assert forall|k: int| 0 <= k < items.len() implies #[trigger] shown_run(all.lines, s.lines.len() as int, items[k]) by {
            if k < init.len() {
                assert(init[k] == items[k]);
                assert(shown_run(prev.lines, s.lines.len() as int, init[k]));
                let j = choose|j: int| s.lines.len() <= j && #[trigger] shows_run(prev.lines, j, init[k]);
                lemma_shows_kept(prev, all, j, arbitrary(), arbitrary(), arbitrary(), items[k]);
                assert(shows_run(all.lines, j, items[k]));
            } else {
                assert(items[k] == items.last());
                let j = prev.lines.len() as int;
                assert(shows_run(all.lines, j, items[k]));
            }
        }
    } else {
        assert(extends(s, run_blocks(s, items)));
    }
}

proof fn lemma_heading_extends(s: Layout, gap: int, title: Seq<char>)
    ensures
        extends(s, skip(put(skip(need(s, 3), gap), title, 14, true), 4)),
{
    let a = skip(need(s, 3), gap);
    lemma_put_extends(a, title, 14, true);
    assert(extends(s, a));
    lemma_extends_trans(s, a, put(a, title, 14, true));
}

/// The four sections of the report, each keeping what came before it, and
/// each item shown by its lines.
proof fn lemma_report_shows(issues: Seq<Issue>, pulls: Seq<PullRequest>, alerts: Seq<SecurityAlert>, runs: Seq<WorkflowRun>)
    ensures
        forall|k: int| 0 <= k < issues.len() ==> #[trigger] shown_issue(report(issues, pulls, alerts, runs).lines, 0, issues[k]),
        forall|k: int| 0 <= k < pulls.len() ==> #[trigger] shown_pull(report(issues, pulls, alerts, runs).lines, 0, pulls[k]),
        forall|k: int| 0 <= k < alerts.len() ==> #[trigger] shown_alert(report(issues, pulls, alerts, runs).lines, 0, alerts[k]),
        forall|k: int| 0 <= k < runs.len() ==> #[trigger] shown_run(report(issues, pulls, alerts, runs).lines, 0, runs[k]),
{
    let t = skip(put(start(), "GitHub Export Report"@, 18, true), 12);
    let h1 = skip(put(need(t, 3), "Issues"@, 14, true), 4);
    let a = issues_section(t, issues);
    let b = pulls_section(a, pulls);
    let c = alerts_section(b, alerts);
    let d = runs_section(c, runs);
    assert(d == report(issues, pulls, alerts, runs));
    let hb = skip(put(skip(need(a, 3), 8), "Pull Requests"@, 14, true), 4);
    let hc = skip(put(skip(need(b, 3), 8), "Security Alerts"@, 14, true), 4);
    let hd = skip(put(skip(need(c, 3), 8), "Workflow Runs"@, 14, true), 4);
    if issues.len() > 0 {
        lemma_issue_blocks_show(h1, issues);
    }
    if pulls.len() > 0 {
        lemma_heading_extends(a, 8, "Pull Requests"@);
        lemma_pull_blocks_show(hb, pulls);
        lemma_extends_trans(a, hb, b);
    } else {
        assert(extends(a, b));
    }
    if alerts.len() > 0 {
        lemma_heading_extends(b, 8, "Security Alerts"@);
        lemma_alert_blocks_show(hc, alerts);
        lemma_extends_trans(b, hc, c);
    } else {
        assert(extends(b, c));
    }
    if runs.len() > 0 {
        lemma_heading_extends(c, 8, "Workflow Runs"@);
        lemma_run_blocks_show(hd, runs);
        lemma_extends_trans(c, hd, d);
    } else {
        assert(extends(c, d));
    }
    lemma_extends_trans(a, b, c);
    lemma_extends_trans(a, c, d);
    lemma_extends_trans(b, c, d);
    assert forall|k: int| 0 <= k < issues.len() implies #[trigger] shown_issue(d.lines, 0, issues[k]) by {
        assert(shown_issue(a.lines, h1.lines.len() as int, issues[k]));
        let j = choose|j: int| h1.lines.len() <= j && #[trigger] shows_issue(a.lines, j, issues[k]);
        lemma_shows_kept(a, d, j, issues[k], arbitrary(), arbitrary(), arbitrary());
        assert(shows_issue(d.lines, j, issues[k]));
    }
    assert forall|k: int| 0 <= k < pulls.len() implies #[trigger] shown_pull(d.lines, 0, pulls[k]) by {
        assert(shown_pull(b.lines, hb.lines.len() as int, pulls[k]));
        let j = choose|j: int| hb.lines.len() <= j && #[trigger] shows_pull(b.lines, j, pulls[k]);
        lemma_shows_kept(b, d, j, arbitrary(), pulls[k], arbitrary(), arbitrary());
        assert(shows_pull(d.lines, j, pulls[k]));
    }
    assert forall|k: int| 0 <= k < alerts.len() implies #[trigger] shown_alert(d.lines, 0, alerts[k]) by {
        assert(shown_alert(c.lines, hc.lines.len() as int, alerts[k]));
        let j = choose|j: int| hc.lines.len() <= j && #[trigger] shows_alert(c.lines, j, alerts[k]);
        lemma_shows_kept(c, d, j, arbitrary(), arbitrary(), alerts[k], arbitrary());
        assert(shows_alert(d.lines, j, alerts[k]));
    }
    assert forall|k: int| 0 <= k < runs.len() implies #[trigger] shown_run(d.lines, 0, runs[k]) by {
        assert(shown_run(d.lines, hd.lines.len() as int, runs[k]));
        let j = choose|j: int| hd.lines.len() <= j && #[trigger] shows_run(d.lines, j, runs[k]);
        assert(shows_run(d.lines, j, runs[k]));
    }
}


/// The report opens with its title, in bold at 18 pt at the top of the
/// first page; each non-empty kind has its section heading in bold at 14 pt
/// ("Issues" right below the title, then "Pull Requests", "Security
/// Alerts" and "Workflow Runs").
pub proof fn report_titles_and_headings(issues: Seq<Issue>, pulls: Seq<PullRequest>, alerts: Seq<SecurityAlert>, runs: Seq<WorkflowRun>)
    ensures
        report(issues, pulls, alerts, runs).lines.len() >= 1,
        report(issues, pulls, alerts, runs).lines[0]
            == (PlacedText { page: 0, y: TOP_Y as int, size: 18, bold: true, text: "GitHub Export Report"@ }),
        issues.len() > 0 ==> report(issues, pulls, alerts, runs).lines[1].text == "Issues"@
            && report(issues, pulls, alerts, runs).lines[1].size == 14 && report(issues, pulls, alerts, runs).lines[1].bold,
        pulls.len() > 0 ==> exists|j: int| 0 <= j < report(issues, pulls, alerts, runs).lines.len()
            && #[trigger] report(issues, pulls, alerts, runs).lines[j].text == "Pull Requests"@
            && report(issues, pulls, alerts, runs).lines[j].size == 14 && report(issues, pulls, alerts, runs).lines[j].bold,
        alerts.len() > 0 ==> exists|j: int| 0 <= j < report(issues, pulls, alerts, runs).lines.len()
            && #[trigger] report(issues, pulls, alerts, runs).lines[j].text == "Security Alerts"@
            && report(issues, pulls, alerts, runs).lines[j].size == 14 && report(issues, pulls, alerts, runs).lines[j].bold,
        runs.len() > 0 ==> exists|j: int| 0 <= j < report(issues, pulls, alerts, runs).lines.len()
            && #[trigger] report(issues, pulls, alerts, runs).lines[j].text == "Workflow Runs"@
            && report(issues, pulls, alerts, runs).lines[j].size == 14 && report(issues, pulls, alerts, runs).lines[j].bold,
{
    let t0 = put(start(), "GitHub Export Report"@, 18, true);
    let t = skip(t0, 12);
    lemma_put_extends(start(), "GitHub Export Report"@, 18, true);
    let h1a = need(t, 3);
    let h1p = put(h1a, "Issues"@, 14, true);
    let h1 = skip(h1p, 4);
    let a = issues_section(t, issues);
    let b = pulls_section(a, pulls);
    let c = alerts_section(b, alerts);
    let d = runs_section(c, runs);
    assert(d == report(issues, pulls, alerts, runs));
    if issues.len() > 0 {
        lemma_put_extends(h1a, "Issues"@, 14, true);
        assert(extends(t, h1a));
        lemma_extends_trans(t, h1a, h1p);
        lemma_extends_trans(t, h1p, h1);
        lemma_issue_blocks_show(h1, issues);
        lemma_extends_trans(t, h1, a);
        lemma_extends_trans(h1p, h1, a);
    } else {
        assert(extends(t, a));
    }
    let pa = skip(need(a, 3), 8);
    let pp = put(pa, "Pull Requests"@, 14, true);
    let hb = skip(pp, 4);
    if pulls.len() > 0 {
        lemma_put_extends(pa, "Pull Requests"@, 14, true);
        assert(extends(a, pa));
        lemma_extends_trans(a, pa, pp);
        lemma_extends_trans(pp, hb, hb);
        lemma_pull_blocks_show(hb, pulls);
        assert(extends(pp, hb));
        lemma_extends_trans(pp, hb, b);
        lemma_extends_trans(a, pp, b);
    } else {
        assert(extends(a, b));
    }
    let ca = skip(need(b, 3), 8);
    let cp = put(ca, "Security Alerts"@, 14, true);
    let hc = skip(cp, 4);
    if alerts.len() > 0 {
        lemma_put_extends(ca, "Security Alerts"@, 14, true);
        assert(extends(b, ca));
        lemma_extends_trans(b, ca, cp);
        lemma_alert_blocks_show(hc, alerts);
        assert(extends(cp, hc));
        lemma_extends_trans(cp, hc, c);
        lemma_extends_trans(b, cp, c);
    } else {
        assert(extends(b, c));
    }
    let da = skip(need(c, 3), 8);
    let dp = put(da, "Workflow Runs"@, 14, true);
    let hd = skip(dp, 4);
    if runs.len() > 0 {
        lemma_put_extends(da, "Workflow Runs"@, 14, true);
        assert(extends(c, da));
        lemma_extends_trans(c, da, dp);
        lemma_run_blocks_show(hd, runs);
        assert(extends(dp, hd));
        lemma_extends_trans(dp, hd, d);
        lemma_extends_trans(c, dp, d);
    } else {
        assert(extends(c, d));
    }
    lemma_extends_trans(a, b, c);
    lemma_extends_trans(a, c, d);
    lemma_extends_trans(b, c, d);
    assert(extends(t0, t));
    lemma_extends_trans(t0, t, a);
    lemma_extends_trans(t0, a, d);
    assert(d.lines[0] == t0.lines[0]);
    if issues.len() > 0 {
        lemma_extends_trans(h1p, a, d);
        assert(d.lines[1] == h1p.lines[1]);
    }
    if pulls.len() > 0 {
        lemma_extends_trans(pp, b, d);
        assert(d.lines[a.lines.len() as int] == pp.lines[a.lines.len() as int]);
        assert(pa.lines.len() == a.lines.len());
        let j = a.lines.len() as int;
        assert(d.lines[j].text == "Pull Requests"@ && d.lines[j].size == 14 && d.lines[j].bold);
    }
    if alerts.len() > 0 {
        lemma_extends_trans(cp, c, d);
        assert(d.lines[b.lines.len() as int] == cp.lines[b.lines.len() as int]);
        assert(ca.lines.len() == b.lines.len());
        let j = b.lines.len() as int;
        assert(d.lines[j].text == "Security Alerts"@ && d.lines[j].size == 14 && d.lines[j].bold);
    }
    if runs.len() > 0 {
        lemma_extends_trans(dp, hd, d);
        assert(d.lines[c.lines.len() as int] == dp.lines[c.lines.len() as int]);
        assert(da.lines.len() == c.lines.len());
        let j = c.lines.len() as int;
        assert(d.lines[j].text == "Workflow Runs"@ && d.lines[j].size == 14 && d.lines[j].bold);
    }
}

/// Every workflow run shows in the report as four lines: in bold at 11 pt
/// its name and branch ("N/A" when it has none), cut to 80 characters; then
/// at 9 pt its status, conclusion ("N/A" when none) and actor; its start
/// time (its creation time when it has not started); and its link, cut to 90
/// characters. Here `k` is the run's position among the runs.
pub proof fn report_shows_each_run(
    issues: Seq<Issue>,
    pulls: Seq<PullRequest>,
    alerts: Seq<SecurityAlert>,
    runs: Seq<WorkflowRun>,
    k: int,
)
    requires
        0 <= k < runs.len(),
    ensures
        exists|j: int| #![trigger report(issues, pulls, alerts, runs).lines[j]] {
            let l = report(issues, pulls, alerts, runs).lines;
            let r = runs[k];
            &&& 0 <= j && j + 3 < l.len()
            &&& l[j].text == truncated(r.name@ + " [Branch: "@ + (match r.head_branch { Some(b) => b@, None => "N/A"@ }) + "]"@, 80)
            &&& l[j].size == 11 && l[j].bold
            &&& l[j + 1].text == "Status: "@ + r.status@ + "  |  Conclusion: "@
                + (match r.conclusion { Some(c) => c@, None => "N/A"@ }) + "  |  Actor: "@ + r.actor_login@
            &&& l[j + 1].size == 9 && !l[j + 1].bold
            &&& l[j + 2].text == "Started: "@ + (match r.run_started_at { Some(t) => t@, None => r.created_at@ })
            &&& l[j + 2].size == 9 && !l[j + 2].bold
            &&& l[j + 3].text == truncated(r.html_url@, 90) && l[j + 3].size == 9 && !l[j + 3].bold
        },
{
    lemma_report_shows(issues, pulls, alerts, runs);
    let l = report(issues, pulls, alerts, runs).lines;
    assert(shown_run(l, 0, runs[k]));
    let j = choose|j: int| 0 <= j && #[trigger] shows_run(l, j, runs[k]);
    reveal(shows_run);
    assert(shows_run(l, j, runs[k]));
}

/// Every pull request shows in the report as four lines: in bold at 11 pt
/// "#number: title" cut to 80 characters; then at 9 pt its state, author and
/// draft flag; its head and base branches; and its link, cut to 90
/// characters. Here `k` is its position among the pull requests.
pub proof fn report_shows_each_pull_request(
    issues: Seq<Issue>,
    pulls: Seq<PullRequest>,
    alerts: Seq<SecurityAlert>,
    runs: Seq<WorkflowRun>,
    k: int,
)
    requires
        0 <= k < pulls.len(),
    ensures
        exists|j: int| #![trigger report(issues, pulls, alerts, runs).lines[j]] {
            let l = report(issues, pulls, alerts, runs).lines;
            let p = pulls[k];
            &&& 0 <= j && j + 3 < l.len()
            &&& l[j].text == truncated("#"@ + decimal(p.number as nat) + ": "@ + p.title@, 80) && l[j].size == 11 && l[j].bold
            &&& l[j + 1].text == "State: "@ + p.state@ + "  |  Author: "@ + p.author@ + "  |  Draft: "@
                + (if p.draft { "true"@ } else { "false"@ })
            &&& l[j + 1].size == 9 && !l[j + 1].bold
            &&& l[j + 2].text == "Head: "@ + p.head_branch@ + "  ->  Base: "@ + p.base_branch@
            &&& l[j + 2].size == 9 && !l[j + 2].bold
            &&& l[j + 3].text == truncated(p.html_url@, 90) && l[j + 3].size == 9 && !l[j + 3].bold
        },
{
    lemma_report_shows(issues, pulls, alerts, runs);
    let l = report(issues, pulls, alerts, runs).lines;
    assert(shown_pull(l, 0, pulls[k]));
    let j = choose|j: int| 0 <= j && #[trigger] shows_pull(l, j, pulls[k]);
    reveal(shows_pull);
    assert(shows_pull(l, j, pulls[k]));
}

/// Every security alert shows in the report: in bold at 11 pt
/// "#id [severity]: summary" cut to 80 characters; then at 9 pt, when a
/// package is named, the package with its vulnerable range and first patched
/// version ("N/A" when absent); and its link, cut to 90 characters. Here `k`
/// is its position among the alerts.
pub proof fn report_shows_each_alert(
    issues: Seq<Issue>,
    pulls: Seq<PullRequest>,
    alerts: Seq<SecurityAlert>,
    runs: Seq<WorkflowRun>,
    k: int,
)
    requires
        0 <= k < alerts.len(),
    ensures
        exists|j: int| #![trigger report(issues, pulls, alerts, runs).lines[j]] {
            let l = report(issues, pulls, alerts, runs).lines;
            let a = alerts[k];
            let o: int = if a.package_name is Some { 1 } else { 0 };
            &&& 0 <= j && j + 1 + o < l.len()
            &&& l[j].text == truncated("#"@ + decimal(a.id as nat) + " ["@ + a.severity@ + "]: "@ + a.summary@, 80)
            &&& l[j].size == 11 && l[j].bold
            &&& a.package_name matches Some(pkg) ==> (l[j + 1].text == "Package: "@ + pkg@ + "  Vulnerable: "@
                + (match a.vulnerable_version_range { Some(t) => t@, None => "N/A"@ }) + "  Patched: "@
                + (match a.patched_version { Some(t) => t@, None => "N/A"@ })
                && l[j + 1].size == 9 && !l[j + 1].bold)
            &&& l[j + 1 + o].text == truncated(a.html_url@, 90) && l[j + 1 + o].size == 9 && !l[j + 1 + o].bold
        },
{
    lemma_report_shows(issues, pulls, alerts, runs);
    let l = report(issues, pulls, alerts, runs).lines;
    assert(shown_alert(l, 0, alerts[k]));
    let j = choose|j: int| 0 <= j && #[trigger] shows_alert(l, j, alerts[k]);
    reveal(shows_alert);
    assert(shows_alert(l, j, alerts[k]));
}

/// Every issue shows in the report: in bold at 11 pt "#number: title" cut
/// to 80 characters; then at 9 pt its state, author and comment count; its
/// labels joined by ", " and cut to 70 characters (when it has any); its
/// creation date; its link, cut to 90 characters; and at 8 pt the start of a
/// non-empty body, line breaks turned to spaces, cut to 100 characters.
/// Here `k` is its position among the issues.
pub proof fn report_shows_each_issue(
    issues: Seq<Issue>,
    pulls: Seq<PullRequest>,
    alerts: Seq<SecurityAlert>,
    runs: Seq<WorkflowRun>,
    k: int,
)
    requires
        0 <= k < issues.len(),
    ensures
        exists|j: int| #![trigger report(issues, pulls, alerts, runs).lines[j]] {
            let l = report(issues, pulls, alerts, runs).lines;
            let i = issues[k];
            let o: int = if i.labels@.len() > 0 { 1 } else { 0 };
            &&& 0 <= j && j + 3 + o < l.len()
            &&& l[j].text == truncated("#"@ + decimal(i.number as nat) + ": "@ + i.title@, 80) && l[j].size == 11 && l[j].bold
            &&& l[j + 1].text == "State: "@ + i.state@ + "  |  Author: "@ + i.author@ + "  |  Comments: "@ + decimal(i.comments as nat)
            &&& l[j + 1].size == 9 && !l[j + 1].bold
            &&& i.labels@.len() > 0 ==> l[j + 2].text == "Labels: "@ + truncated(joined(i.labels.deep_view(), ", "@), 70)
                && l[j + 2].size == 9 && !l[j + 2].bold
            &&& l[j + 2 + o].text == "Created: "@ + chrono_ymd(i.created_at.spec_secs(), i.created_at.spec_nanos())
            &&& l[j + 2 + o].size == 9 && !l[j + 2 + o].bold
            &&& l[j + 3 + o].text == truncated(i.html_url@, 90) && l[j + 3 + o].size == 9 && !l[j + 3 + o].bold
            &&& i.body matches Some(b) ==> (b@.len() > 0 ==> j + 4 + o < l.len()
                && l[j + 4 + o].text == "Body: "@ + truncated(flattened(b@), 100) && l[j + 4 + o].size == 8 && !l[j + 4 + o].bold)
        },
{
    lemma_report_shows(issues, pulls, alerts, runs);
    let l = report(issues, pulls, alerts, runs).lines;
    assert(shown_issue(l, 0, issues[k]));
    let j = choose|j: int| 0 <= j && #[trigger] shows_issue(l, j, issues[k]);
    reveal(shows_issue);
    assert(shows_issue(l, j, issues[k]));
}

} // verus!
