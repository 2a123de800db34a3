//! Dependabot and code-scanning alerts: the requests, and the alert records
//! made from the replies.
use vstd::prelude::*;
use crate::models::SecurityAlert;
use crate::timestamp::{chrono_parsed, Timestamp};

verus! {

/// A CWE entry of an advisory.
#[derive(Debug)]
pub struct RawCwe {
    pub cwe_id: Option<String>,
}

/// The advisory part of a Dependabot alert. (Its CVSS score, a
/// floating-point number, is handled by the application.)
#[derive(Debug)]
pub struct RawAdvisory {
    pub summary: Option<String>,
    pub description: Option<String>,
    pub severity: Option<String>,
    pub cve_id: Option<String>,
    pub cwes: Option<Vec<RawCwe>>,
}

/// The affected package of a Dependabot alert.
#[derive(Debug)]
pub struct RawPackage {
    pub name: Option<String>,
}

/// The first patched version of a vulnerability.
#[derive(Debug)]
pub struct RawPatchedVersion {
    pub identifier: Option<String>,
}

/// The vulnerability part of a Dependabot alert.
#[derive(Debug)]
pub struct RawVulnerability {
    pub package: Option<RawPackage>,
    pub vulnerable_version_range: Option<String>,
    pub first_patched_version: Option<RawPatchedVersion>,
}

/// A Dependabot alert as the REST API reports it.
#[derive(Debug)]
pub struct RawDependabotAlert {
    pub number: u64,
    pub state: String,
    pub html_url: String,
    pub created_at: String,
    pub security_advisory: Option<RawAdvisory>,
    pub security_vulnerability: Option<RawVulnerability>,
    pub dismissed_reason: Option<String>,
    pub dismissed_comment: Option<String>,
}

/// The rule a code-scanning alert reports.
#[derive(Debug)]
pub struct CodeScanningAlertRule {
    pub id: Option<String>,
    pub description: Option<String>,
    pub severity: Option<String>,
}

/// The tool that raised a code-scanning alert.
#[derive(Debug)]
pub struct CodeScanningAlertTool {
    pub name: Option<String>,
}

/// Where a code-scanning alert was found.
#[derive(Debug)]
pub struct CodeScanningLocation {
    pub path: Option<String>,
}

/// The most recent occurrence of a code-scanning alert.
#[derive(Debug)]
pub struct CodeScanningAlertInstance {
    pub location: Option<CodeScanningLocation>,
}

/// A code-scanning alert as the REST API reports it.
#[derive(Debug)]
pub struct RawCodeScanningAlert {
    pub number: u64,
    pub state: String,
    pub rule: CodeScanningAlertRule,
    pub tool: CodeScanningAlertTool,
    pub most_recent_instance: Option<CodeScanningAlertInstance>,
    pub created_at: String,
    pub html_url: String,
}

fn path_text(owner: &str, repo: &str, tail: &str, open_only: bool) -> (r: String)
    ensures
        r@ == "/repos/"@ + owner@ + "/"@ + repo@ + tail@ + if open_only { "&state=open"@ } else { ""@ },
{
    let mut url = String::from_str("/repos/");
    url.append(owner);
    url.append("/");
    url.append(repo);
    url.append(tail);
    if open_only {
        url.append("&state=open");
    } else {
        proof {
            reveal_strlit("");
            assert(url@ =~= url@ + ""@);
        }
    }
    url
}

/// Whether the state filter asks for open alerts only (alerts have no
/// open/closed pair: "closed" and "all" list every alert).
pub open spec fn open_only(state: Option<Seq<char>>) -> bool {
    state == Some("open"@)
}

fn is_open_only(state: Option<&str>) -> (r: bool)
    ensures
        r == open_only(match state { Some(s) => Some(s@), None => None }),
{
    match state {
        Some(s) => crate::text::text_eq(s, "open"),
        None => false,
    }
}

/// The path listing a repository's Dependabot alerts (100 per page), open
/// ones only when the filter is `"open"`.
pub fn dependabot_alerts_path(owner: &str, repo: &str, state: Option<&str>) -> (r: String)
    ensures
        r@ == "/repos/"@ + owner@ + "/"@ + repo@ + "/dependabot/alerts?per_page=100"@
            + if open_only(match state { Some(s) => Some(s@), None => None }) { "&state=open"@ } else { ""@ },
{
    path_text(owner, repo, "/dependabot/alerts?per_page=100", is_open_only(state))
}

/// The path listing a repository's code-scanning alerts (100 per page),
/// open ones only when the filter is `"open"`.
pub fn code_scanning_alerts_path(owner: &str, repo: &str, state: Option<&str>) -> (r: String)
    ensures
        r@ == "/repos/"@ + owner@ + "/"@ + repo@ + "/code-scanning/alerts?per_page=100"@
            + if open_only(match state { Some(s) => Some(s@), None => None }) { "&state=open"@ } else { ""@ },
{
    path_text(owner, repo, "/code-scanning/alerts?per_page=100", is_open_only(state))
}

/// The detail of an error GitHub answered with.
pub fn github_api_error_detail(status: &str, message: &str) -> (r: String)
    ensures
        r@ == "GitHub API error "@ + status@ + ": "@ + message@,
{
    let mut s = String::from_str("GitHub API error ");
    s.append(status);
    s.append(": ");
    s.append(message);
    s
}

/// The message shown when the Dependabot alerts cannot be fetched: the
/// detail, then what the token needs and that alerts must be enabled.
pub fn dependabot_failure_message(detail: &str) -> (r: String)
    ensures
        r@ == "Failed to fetch Dependabot alerts: "@ + detail@
            + "\n\nToken permission requirements:\n• Fine-grained PAT: under Repository permissions → set 'Dependabot alerts' to Read\n• Classic PAT: check the 'security_events' scope\n\nAlso ensure Dependabot alerts are enabled for this repository (Settings → Security → Advanced Security → Dependabot Alerts → Enable)."@,
{
    let mut s = String::from_str("Failed to fetch Dependabot alerts: ");
    s.append(detail);
    s.append("\n\nToken permission requirements:\n• Fine-grained PAT: under Repository permissions → set 'Dependabot alerts' to Read\n• Classic PAT: check the 'security_events' scope\n\nAlso ensure Dependabot alerts are enabled for this repository (Settings → Security → Advanced Security → Dependabot Alerts → Enable).");
    s
}

/// The CWE ids of an advisory, in order, entries without an id skipped.
pub open spec fn cwe_ids(cwes: Seq<RawCwe>) -> Seq<Seq<char>>
    decreases cwes.len(),
{
    if cwes.len() == 0 {
        seq![]
    } else {
        match cwes.last().cwe_id {
            Some(id) => cwe_ids(cwes.drop_last()).push(id@),
            None => cwe_ids(cwes.drop_last()),
        }
    }
}

/// The creation time read from the reply's text; when chrono cannot read
/// it, the alert is stamped with the time it was fetched (an instant of the
/// system clock: at or after the Unix epoch, sub-second part below one
/// second).
pub open spec fn created_from(t: Timestamp, text: Seq<char>) -> bool {
    match chrono_parsed(text) {
        Some(p) => t.spec_secs() == p.0 && t.spec_nanos() == p.1,
        None => t.spec_secs() >= 0 && t.spec_nanos() < 1_000_000_000,
    }
}

pub open spec fn opt_view(o: Option<String>) -> Option<Seq<char>> {
    match o { Some(s) => Some(s@), None => None }
}

pub open spec fn advisory_text(a: Option<RawAdvisory>, field: spec_fn(RawAdvisory) -> Option<String>) -> Option<Seq<char>> {
    match a { Some(ad) => opt_view(field(ad)), None => None }
}

/// The alert made from a Dependabot alert: severity `"unknown"` and empty
/// summary and description when the advisory lacks them; package, ranges
/// and CVE from the advisory and vulnerability when present; type
/// `"dependabot"`, no tool or location.
pub open spec fn dependabot_alert_from(s: SecurityAlert, a: RawDependabotAlert) -> bool {
    let adv = a.security_advisory;
    let vuln = a.security_vulnerability;
    &&& s.id == a.number
    &&& s.severity@ == match advisory_text(adv, |x: RawAdvisory| x.severity) { Some(t) => t, None => "unknown"@ }
    &&& s.summary@ == match advisory_text(adv, |x: RawAdvisory| x.summary) { Some(t) => t, None => seq![] }
    &&& s.description@ == match advisory_text(adv, |x: RawAdvisory| x.description) { Some(t) => t, None => seq![] }
    &&& opt_view(s.package_name) == match vuln {
        Some(v) => match v.package { Some(p) => opt_view(p.name), None => None },
        None => None,
    }
    &&& opt_view(s.vulnerable_version_range) == match vuln { Some(v) => opt_view(v.vulnerable_version_range), None => None }
    &&& opt_view(s.patched_version) == match vuln {
        Some(v) => match v.first_patched_version { Some(p) => opt_view(p.identifier), None => None },
        None => None,
    }
    &&& s.state == a.state
    &&& s.html_url == a.html_url
    &&& created_from(s.created_at, a.created_at@)
    &&& s.alert_type@ == "dependabot"@
    &&& s.tool_name is None
    &&& s.location_path is None
    &&& opt_view(s.cve_id) == advisory_text(adv, |x: RawAdvisory| x.cve_id)
    &&& s.cwes.deep_view() == match adv {
        Some(ad) => match ad.cwes { Some(c) => cwe_ids(c@), None => seq![] },
        None => seq![],
    }
    &&& s.dismissed_reason == a.dismissed_reason
    &&& s.dismissed_comment == a.dismissed_comment
}

/// The alert made from a code-scanning alert: the rule's description (else
/// its id, else `"Unknown"`) as summary, its severity (else `"unknown"`),
/// empty description, the tool and most recent location, type
/// `"code_scanning"`, and no package, CVE, CWEs or dismissal.
pub open spec fn code_scanning_alert_from(s: SecurityAlert, a: RawCodeScanningAlert) -> bool {
    &&& s.id == a.number
    &&& s.severity@ == match a.rule.severity { Some(t) => t@, None => "unknown"@ }
    &&& s.summary@ == match a.rule.description {
        Some(t) => t@,
        None => match a.rule.id { Some(t) => t@, None => "Unknown"@ },
    }
    &&& s.description@ == Seq::<char>::empty()
    &&& s.package_name is None
    &&& s.vulnerable_version_range is None
    &&& s.patched_version is None
    &&& s.state == a.state
    &&& s.html_url == a.html_url
    &&& created_from(s.created_at, a.created_at@)
    &&& s.alert_type@ == "code_scanning"@
    &&& s.tool_name == a.tool.name
    &&& s.location_path == match a.most_recent_instance {
        Some(i) => match i.location { Some(l) => l.path, None => None },
        None => None,
    }
    &&& s.cve_id is None
    &&& s.cwes@.len() == 0
    &&& s.dismissed_reason is None
    &&& s.dismissed_comment is None
}

/// Only the filter word "open" restricts alerts to open ones; "closed",
/// "all", any other word or none lists every alert.
pub proof fn only_open_restricts_alerts(state: Option<Seq<char>>)
    ensures
        open_only(state) <==> state == Some("open"@),
{
}

/// An alert's creation time is the time chrono reads from the reply; when
/// it reads none, the alert carries a clock reading (at or after 1970, with
/// a sub-second part below one second).
pub proof fn alert_times_come_from_the_reply(t: Timestamp, text: Seq<char>)
    requires
        created_from(t, text),
    ensures
        chrono_parsed(text) matches Some(p) ==> t.spec_secs() == p.0 && t.spec_nanos() == p.1,
        chrono_parsed(text) is None ==> t.spec_secs() >= 0 && t.spec_nanos() < 1_000_000_000,
{
}

/// The CWE ids of an advisory are the ids of its CWE entries that have one,
/// in order.
pub proof fn cwe_ids_are_the_present_ids(cwes: Seq<RawCwe>)
    ensures
        cwe_ids(cwes) == cwes.filter(|c: RawCwe| c.cwe_id is Some).map_values(|c: RawCwe| c.cwe_id->0@),
    decreases cwes.len(),
{
    reveal(Seq::filter);
    if cwes.len() > 0 {
        cwe_ids_are_the_present_ids(cwes.drop_last());
        let f = cwes.drop_last().filter(|c: RawCwe| c.cwe_id is Some);
        if cwes.last().cwe_id is Some {
            assert(f.push(cwes.last()).map_values(|c: RawCwe| c.cwe_id->0@)
                =~= f.map_values(|c: RawCwe| c.cwe_id->0@).push(cwes.last().cwe_id->0@));
        }
    } else {
        assert(cwes.filter(|c: RawCwe| c.cwe_id is Some).map_values(|c: RawCwe| c.cwe_id->0@) =~= Seq::<Seq<char>>::empty());
    }
}

/// A Dependabot alert record keeps the reply's values: the advisory's
/// severity (else "unknown"), summary and description (else empty) and CVE;
/// the vulnerable package, vulnerable range and first patched version in
/// their own places; the alert's number, state, link and dismissal; type
/// "dependabot" and no tool or location.
pub proof fn dependabot_alert_keeps_reply_fields(s: SecurityAlert, a: RawDependabotAlert)
    requires
        dependabot_alert_from(s, a),
    ensures
        s.id == a.number,
        s.severity@ == match a.security_advisory {
            Some(ad) => match ad.severity { Some(t) => t@, None => "unknown"@ },
            None => "unknown"@,
        },
        s.summary@ == match a.security_advisory {
            Some(ad) => match ad.summary { Some(t) => t@, None => Seq::<char>::empty() },
            None => Seq::<char>::empty(),
        },
        s.description@ == match a.security_advisory {
            Some(ad) => match ad.description { Some(t) => t@, None => Seq::<char>::empty() },
            None => Seq::<char>::empty(),
        },
        a.security_advisory matches Some(ad) ==> (ad.description matches Some(d) ==> s.description@ == d@),
        s.package_name.deep_view() == match a.security_vulnerability {
            Some(v) => match v.package { Some(p) => match p.name { Some(t) => Some(t@), None => None }, None => None },
            None => None,
        },
        s.vulnerable_version_range.deep_view() == match a.security_vulnerability {
            Some(v) => match v.vulnerable_version_range { Some(t) => Some(t@), None => None },
            None => None,
        },
        s.patched_version.deep_view() == match a.security_vulnerability {
            Some(v) => match v.first_patched_version {
                Some(p) => match p.identifier { Some(t) => Some(t@), None => None },
                None => None,
            },
            None => None,
        },
        s.cve_id.deep_view() == match a.security_advisory {
            Some(ad) => match ad.cve_id { Some(t) => Some(t@), None => None },
            None => None,
        },
        s.state == a.state,
        s.html_url == a.html_url,
        chrono_parsed(a.created_at@) matches Some(p) ==> s.created_at.spec_secs() == p.0 && s.created_at.spec_nanos() == p.1,
        s.alert_type@ == "dependabot"@,
        s.tool_name is None,
        s.location_path is None,
        s.cwes.deep_view() == match a.security_advisory {
            Some(ad) => match ad.cwes {
                Some(c) => c@.filter(|x: RawCwe| x.cwe_id is Some).map_values(|x: RawCwe| x.cwe_id->0@),
                None => Seq::<Seq<char>>::empty(),
            },
            None => Seq::<Seq<char>>::empty(),
        },
        s.dismissed_reason == a.dismissed_reason,
        s.dismissed_comment == a.dismissed_comment,
{
    match a.security_advisory {
        Some(ad) => match ad.cwes {
            Some(c) => cwe_ids_are_the_present_ids(c@),
            None => {},
        },
        None => {},
    }
}

/// A code-scanning alert record keeps the reply's values: the rule's
/// description (else its id, else "Unknown") as summary, its severity (else
/// "unknown"), the tool's name and the most recent location's path; type
/// "code_scanning" and no package, versions, CVE, CWEs or dismissal.
pub proof fn code_scanning_alert_keeps_reply_fields(s: SecurityAlert, a: RawCodeScanningAlert)
    requires
        code_scanning_alert_from(s, a),
    ensures
        s.id == a.number,
        s.severity@ == match a.rule.severity { Some(t) => t@, None => "unknown"@ },
        s.summary@ == match a.rule.description {
            Some(t) => t@,
            None => match a.rule.id { Some(t) => t@, None => "Unknown"@ },
        },
        s.description@.len() == 0,
        s.package_name is None && s.vulnerable_version_range is None && s.patched_version is None,
        s.state == a.state,
        s.html_url == a.html_url,
        chrono_parsed(a.created_at@) matches Some(p) ==> s.created_at.spec_secs() == p.0 && s.created_at.spec_nanos() == p.1,
        s.alert_type@ == "code_scanning"@,
        s.tool_name == a.tool.name,
        s.location_path == match a.most_recent_instance {
            Some(i) => match i.location { Some(l) => l.path, None => None },
            None => None,
        },
        s.cve_id is None && s.cwes@.len() == 0,
        s.dismissed_reason is None && s.dismissed_comment is None,
{
}

fn created_at_of(text: &String) -> (r: Timestamp)
    ensures
        created_from(r, text@),
{
    match Timestamp::parse_rfc3339(text.as_str()) {
        Some(t) => t,
        None => Timestamp::now(),
    }
}

fn cwe_list(cwes: Vec<RawCwe>) -> (r: Vec<String>)
    ensures
        r.deep_view() == cwe_ids(cwes@),
{
    let ghost all = cwes@;
    let mut out: Vec<String> = Vec::new();
    for c in it: cwes.into_iter()
        invariant
            it.seq() == all,
            out.deep_view() == cwe_ids(all.take(it.index() as int)),
    {
        proof {
            assert(all.take(it.index() + 1).drop_last() =~= all.take(it.index() as int));
            assert(all.take(it.index() + 1).last() == c);
        }
        match c.cwe_id {
            Some(id) => {
                let ghost before = out.deep_view();
                let ghost v = id@;
                out.push(id);
                proof { assert(out.deep_view() =~= before.push(v)); }
            }
            None => {}
        }
    }
    proof { assert(all.take(all.len() as int) =~= all); }
    out
}

fn text_or_default(o: Option<String>, fallback: &str) -> (r: String)
    ensures
        r@ == match o { Some(s) => s@, None => fallback@ },
{
    match o {
        Some(s) => s,
        None => String::from_str(fallback),
    }
}

/// The alert record for one Dependabot alert.
pub fn dependabot_alert(a: RawDependabotAlert) -> (s: SecurityAlert)
    ensures
        dependabot_alert_from(s, a),
{
    let ghost ga = a;
    let created_at = created_at_of(&a.created_at);
    let (severity, summary, description, cve_id, cwes) = match a.security_advisory {
        Some(ad) => {
            let cwes = match ad.cwes {
                Some(c) => cwe_list(c),
                None => {
                    let v: Vec<String> = Vec::new();
                    proof { assert(v.deep_view() =~= Seq::<Seq<char>>::empty()); }
                    v
                }
            };
            (text_or_default(ad.severity, "unknown"), text_or_default(ad.summary, ""),
             text_or_default(ad.description, ""), ad.cve_id, cwes)
        }
        None => {
            let v: Vec<String> = Vec::new();
            proof { assert(v.deep_view() =~= Seq::<Seq<char>>::empty()); }
            (String::from_str("unknown"), String::new(), String::new(), None, v)
        }
    };
    let (package_name, vulnerable_version_range, patched_version) = match a.security_vulnerability {
        Some(v) => {
            let pkg = match v.package { Some(p) => p.name, None => None };
            let patched = match v.first_patched_version { Some(p) => p.identifier, None => None };
            (pkg, v.vulnerable_version_range, patched)
        }
        None => (None, None, None),
    };
    proof {
        reveal_strlit("");
        assert(""@ =~= Seq::<char>::empty());
    }
    let s = SecurityAlert {
        id: a.number,
        severity,
        summary,
        description,
        package_name,
        vulnerable_version_range,
        patched_version,
        state: a.state,
        html_url: a.html_url,
        created_at,
        alert_type: String::from_str("dependabot"),
        tool_name: None,
        location_path: None,
        cve_id,
        cwes,
        dismissed_reason: a.dismissed_reason,
        dismissed_comment: a.dismissed_comment,
    };
    proof {
        assert(s.cwes.deep_view() =~= match ga.security_advisory {
            Some(ad) => match ad.cwes { Some(c) => cwe_ids(c@), None => seq![] },
            None => seq![],
        });
    }
    s
}

/// The alert record for one code-scanning alert.
pub fn code_scanning_alert(a: RawCodeScanningAlert) -> (s: SecurityAlert)
    ensures
        code_scanning_alert_from(s, a),
{
    let created_at = created_at_of(&a.created_at);
    let summary = match a.rule.description {
        Some(d) => d,
        None => text_or_default(a.rule.id, "Unknown"),
    };
    let location_path = match a.most_recent_instance {
        Some(i) => match i.location { Some(l) => l.path, None => None },
        None => None,
    };
    let description = String::new();
    let s = SecurityAlert {
        id: a.number,
        severity: text_or_default(a.rule.severity, "unknown"),
        summary,
        description,
        package_name: None,
        vulnerable_version_range: None,
        patched_version: None,
        state: a.state,
        html_url: a.html_url,
        created_at,
        alert_type: String::from_str("code_scanning"),
        tool_name: a.tool.name,
        location_path,
        cve_id: None,
        cwes: Vec::new(),
        dismissed_reason: None,
        dismissed_comment: None,
    };
    s
}

/// The alerts of a repository: its Dependabot alerts in order, then its
/// code-scanning alerts when those could be fetched (`None` when the
/// code-scanning request failed, which is not an error).
pub fn alerts_from_responses(
    dependabot: Vec<RawDependabotAlert>,
    code_scanning: Option<Vec<RawCodeScanningAlert>>,
) -> (r: Vec<SecurityAlert>)
    ensures
        r@.len() == dependabot@.len() + match code_scanning { Some(c) => c@.len(), None => 0 },
        forall|k: int| 0 <= k < dependabot@.len() ==> dependabot_alert_from(#[trigger] r@[k], dependabot@[k]),
        code_scanning matches Some(c) ==> forall|k: int| 0 <= k < c@.len() ==>
            code_scanning_alert_from(#[trigger] r@[dependabot@.len() + k], c@[k]),
{
    let ghost deps = dependabot@;
    let mut out: Vec<SecurityAlert> = Vec::new();
    for a in it: dependabot.into_iter()
        invariant
            it.seq() == deps,
            out@.len() == it.index(),
            forall|k: int| 0 <= k < it.index() ==> dependabot_alert_from(#[trigger] out@[k], deps[k]),
    {
        out.push(dependabot_alert(a));
    }
    match code_scanning {
        Some(c) => {
            let ghost cs = c@;
            let ghost base = out@.len();
            for a in it: c.into_iter()
                invariant
                    it.seq() == cs,
                    base == deps.len(),
                    out@.len() == base + it.index(),
                    forall|k: int| 0 <= k < deps.len() ==> dependabot_alert_from(#[trigger] out@[k], deps[k]),
                    forall|k: int| 0 <= k < it.index() ==> code_scanning_alert_from(#[trigger] out@[base + k], cs[k]),
            {
                out.push(code_scanning_alert(a));
            }
        }
        None => {}
    }
    out
}

} // verus!
