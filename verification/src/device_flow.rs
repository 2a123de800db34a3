//! GitHub's OAuth device flow (RFC 8628): reading the device-code reply and
//! deciding, reply by reply, how polling for the access token goes on.
//!
//! The HTTP exchanges and the waiting are done by the application, which
//! hands each reply's status and body to the functions here.
use vstd::prelude::*;
use crate::models::DeviceFlowStart;
use crate::text::{text_eq, text_or};

verus! {

/// The GitHub OAuth App Client ID (public, RFC 8628 §3.4).
pub const GITHUB_CLIENT_ID: &'static str = "Ov23lit0Ok09PHqufOw7";
/// Where the device and user codes are requested.
pub const DEVICE_CODE_URL: &'static str = "https://github.com/login/device/code";
/// Where the access token is polled for.
pub const ACCESS_TOKEN_URL: &'static str = "https://github.com/login/oauth/access_token";
/// The scopes requested for the token.
pub const OAUTH_SCOPES: &'static str = "repo security_events";
/// The grant type of a device-code token request.
pub const DEVICE_GRANT_TYPE: &'static str = "urn:ietf:params:oauth:grant-type:device_code";

/// The string member `key` of the JSON object in `body`, as serde_json reads
/// it (`from_str::<Value>(body)`, then `value[key].as_str()`); `None` when
/// the body is not JSON, not an object, lacks the member, or it is no string.
pub uninterp spec fn json_text_member(body: Seq<char>, key: Seq<char>) -> Option<Seq<char>>;

/// The unsigned integer member `key` of the JSON object in `body`, as
/// serde_json reads it (`value[key].as_u64()`).
pub uninterp spec fn json_u64_member(body: Seq<char>, key: Seq<char>) -> Option<u64>;

/// Calls `serde_json::from_str::<Value>`, indexes the value by `key` and
/// takes it `as_str`. The result is only named.
#[verifier::external_body]
fn json_text(body: &str, key: &str) -> (r: Option<String>)
    ensures
        r.deep_view() == json_text_member(body@, key@),
{
    let v: serde_json::Value = serde_json::from_str(body).unwrap_or(serde_json::Value::Null);
    v[key].as_str().map(|s| s.to_string())
}

/// Calls `serde_json::from_str::<Value>`, indexes the value by `key` and
/// takes it `as_u64`. The result is only named.
#[verifier::external_body]
fn json_u64(body: &str, key: &str) -> (r: Option<u64>)
    ensures
        r == json_u64_member(body@, key@),
{
    let v: serde_json::Value = serde_json::from_str(body).unwrap_or(serde_json::Value::Null);
    v[key].as_u64()
}

/// Whether an HTTP status code is in the success class (200–299).
pub open spec fn is_success(code: u16) -> bool {
    200 <= code && code < 300
}

/// The text of an optional value, or a fallback.
pub open spec fn or_else(o: Option<Seq<char>>, fallback: Seq<char>) -> Seq<char> {
    match o {
        Some(s) => s,
        None => fallback,
    }
}

pub open spec fn opt_text(o: Option<String>) -> Option<Seq<char>> {
    match o {
        Some(s) => Some(s@),
        None => None,
    }
}

/// The members of GitHub's reply to the device-code request that are read
/// (`None` where the reply has no such member of the right type).
pub struct DeviceCodeMembers {
    pub error: Option<String>,
    pub error_description: Option<String>,
    pub device_code: Option<String>,
    pub user_code: Option<String>,
    pub verification_uri: Option<String>,
    pub expires_in: Option<u64>,
    pub interval: Option<u64>,
}

/// The mathematical view of [`DeviceCodeMembers`].
pub struct DeviceCodeFields {
    pub error: Option<Seq<char>>,
    pub error_description: Option<Seq<char>>,
    pub device_code: Option<Seq<char>>,
    pub user_code: Option<Seq<char>>,
    pub verification_uri: Option<Seq<char>>,
    pub expires_in: Option<u64>,
    pub interval: Option<u64>,
}

pub open spec fn device_code_fields(m: DeviceCodeMembers) -> DeviceCodeFields {
    DeviceCodeFields {
        error: opt_text(m.error),
        error_description: opt_text(m.error_description),
        device_code: opt_text(m.device_code),
        user_code: opt_text(m.user_code),
        verification_uri: opt_text(m.verification_uri),
        expires_in: m.expires_in,
        interval: m.interval,
    }
}

/// The members of a device-code reply body as serde_json reads them.
pub open spec fn json_device_code_fields(body: Seq<char>) -> DeviceCodeFields {
    DeviceCodeFields {
        error: json_text_member(body, "error"@),
        error_description: json_text_member(body, "error_description"@),
        device_code: json_text_member(body, "device_code"@),
        user_code: json_text_member(body, "user_code"@),
        verification_uri: json_text_member(body, "verification_uri"@),
        expires_in: json_u64_member(body, "expires_in"@),
        interval: json_u64_member(body, "interval"@),
    }
}

/// The members of GitHub's reply to a token request that are read.
pub struct TokenMembers {
    pub access_token: Option<String>,
    pub error: Option<String>,
    pub error_description: Option<String>,
}

/// The mathematical view of [`TokenMembers`].
pub struct TokenFields {
    pub access_token: Option<Seq<char>>,
    pub error: Option<Seq<char>>,
    pub error_description: Option<Seq<char>>,
}

pub open spec fn token_fields(m: TokenMembers) -> TokenFields {
    TokenFields {
        access_token: opt_text(m.access_token),
        error: opt_text(m.error),
        error_description: opt_text(m.error_description),
    }
}

/// The members of a token reply body as serde_json reads them.
pub open spec fn json_token_fields(body: Seq<char>) -> TokenFields {
    TokenFields {
        access_token: json_text_member(body, "access_token"@),
        error: json_text_member(body, "error"@),
        error_description: json_text_member(body, "error_description"@),
    }
}

/// What goes wrong with a reply whose HTTP status is not a success: the
/// status, the `error` member (else "unknown error") and the
/// `error_description` member (else the whole body).
pub open spec fn http_failure_text(
    status: Seq<char>,
    body: Seq<char>,
    error: Option<Seq<char>>,
    description: Option<Seq<char>>,
) -> Seq<char> {
    "GitHub returned HTTP "@ + status + ": "@ + or_else(error, "unknown error"@) + " — "@
        + or_else(description, body)
}

pub open spec fn setup_hint() -> Seq<char> {
    "\nVerify that the Client ID is correct and Device Flow is enabled on your OAuth App at https://github.com/settings/developers"@
}

pub open spec fn auth_error_text(error: Seq<char>, description: Option<Seq<char>>) -> Seq<char> {
    "GitHub auth error: "@ + error + " — "@
        + or_else(description, "No description provided by GitHub."@)
        + "\nIf the error is \"unauthorized_client\", ensure Device Flow is enabled on your OAuth App at https://github.com/settings/developers"@
}

/// The outcome of the device-code request, from the reply's status, body
/// and members: an error for a failed status or an `error` member;
/// otherwise the device code, user code and verification URI (each
/// required), and the expiry and polling interval (900 s and 5 s when
/// absent).
pub open spec fn device_code_decision(code: u16, status: Seq<char>, body: Seq<char>, f: DeviceCodeFields) -> Result<
    (Seq<char>, Seq<char>, Seq<char>, u64, u64),
    Seq<char>,
> {
    if !is_success(code) {
        Err(http_failure_text(status, body, f.error, f.error_description) + setup_hint())
    } else if f.error is Some {
        Err(auth_error_text(f.error->0, f.error_description))
    } else if f.device_code is None {
        Err("Missing device_code in response"@)
    } else if f.user_code is None {
        Err("Missing user_code in response"@)
    } else if f.verification_uri is None {
        Err("Missing verification_uri in response"@)
    } else {
        Ok((
            f.device_code->0,
            f.user_code->0,
            f.verification_uri->0,
            match f.expires_in { Some(v) => v, None => 900u64 },
            match f.interval { Some(v) => v, None => 5u64 },
        ))
    }
}

/// The outcome of the device-code request, the members read from the body.
pub open spec fn device_code_outcome(code: u16, status: Seq<char>, body: Seq<char>) -> Result<
    (Seq<char>, Seq<char>, Seq<char>, u64, u64),
    Seq<char>,
> {
    device_code_decision(code, status, body, json_device_code_fields(body))
}

pub open spec fn start_matches(
    r: Result<DeviceFlowStart, String>,
    o: Result<(Seq<char>, Seq<char>, Seq<char>, u64, u64), Seq<char>>,
) -> bool {
    match (r, o) {
        (Ok(d), Ok(t)) => d.device_code@ == t.0 && d.user_code@ == t.1
            && d.verification_uri@ == t.2 && d.expires_in == t.3 && d.interval == t.4,
        (Err(e), Err(t)) => e@ == t,
        _ => false,
    }
}

/// The data handed to the user is the decision's, field by field: device
/// code, user code, verification address, expiry and polling interval in
/// that order; an error is handed on as its message.
pub proof fn start_carries_the_decision(
    r: Result<DeviceFlowStart, String>,
    o: Result<(Seq<char>, Seq<char>, Seq<char>, u64, u64), Seq<char>>,
)
    requires
        start_matches(r, o),
    ensures
        r is Ok <==> o is Ok,
        r matches Ok(d) ==> (o matches Ok(t) && d.device_code@ == t.0 && d.user_code@ == t.1
            && d.verification_uri@ == t.2 && d.expires_in == t.3 && d.interval == t.4),
        r matches Err(e) ==> (o matches Err(m) && e@ == m),
{
}

fn failure_text(status: &str, body: &str, error: &Option<String>, description: &Option<String>) -> (r: String)
    ensures
        r@ == http_failure_text(status@, body@, opt_text(*error), opt_text(*description)),
{
    let mut msg = String::from_str("GitHub returned HTTP ");
    msg.append(status);
    msg.append(": ");
    msg.append(text_or(error, "unknown error").as_str());
    msg.append(" — ");
    msg.append(text_or(description, body).as_str());
    msg
}

/// Decides on GitHub's reply to the device-code request, given its status
/// code, the status's display text, the body and the members read from it:
/// the data the user needs to authorise the app, or the error to show.
pub fn decide_device_code_reply(
    status_code: u16,
    status: &str,
    body: &str,
    members: DeviceCodeMembers,
) -> (r: Result<DeviceFlowStart, String>)
    ensures
        start_matches(r, device_code_decision(status_code, status@, body@, device_code_fields(members))),
{
    let ghost f = device_code_fields(members);
    if !(200 <= status_code && status_code < 300) {
        let mut msg = failure_text(status, body, &members.error, &members.error_description);
        msg.append("\nVerify that the Client ID is correct and Device Flow is enabled on your OAuth App at https://github.com/settings/developers");
        return Err(msg);
    }
    match &members.error {
        Some(e) => {
            let mut msg = String::from_str("GitHub auth error: ");
            msg.append(e.as_str());
            msg.append(" — ");
            msg.append(text_or(&members.error_description, "No description provided by GitHub.").as_str());
            msg.append("\nIf the error is \"unauthorized_client\", ensure Device Flow is enabled on your OAuth App at https://github.com/settings/developers");
            return Err(msg);
        }
        None => {}
    }
    let device_code = match members.device_code {
        Some(s) => s,
        None => return Err(String::from_str("Missing device_code in response")),
    };
    let user_code = match members.user_code {
        Some(s) => s,
        None => return Err(String::from_str("Missing user_code in response")),
    };
    let verification_uri = match members.verification_uri {
        Some(s) => s,
        None => return Err(String::from_str("Missing verification_uri in response")),
    };
    let expires_in = match members.expires_in {
        Some(v) => v,
        None => 900,
    };
    let interval = match members.interval {
        Some(v) => v,
        None => 5,
    };
    Ok(DeviceFlowStart { user_code, verification_uri, device_code, expires_in, interval })
}

/// Reads GitHub's reply to the device-code request (`status_code` and its
/// display text `status`, and the body) into the data the user needs to
/// authorise the app, or the error message to show.
pub fn read_device_code_reply(status_code: u16, status: &str, body: &str) -> (r: Result<DeviceFlowStart, String>)
    ensures
        start_matches(r, device_code_outcome(status_code, status@, body@)),
{
    let members = DeviceCodeMembers {
        error: json_text(body, "error"),
        error_description: json_text(body, "error_description"),
        device_code: json_text(body, "device_code"),
        user_code: json_text(body, "user_code"),
        verification_uri: json_text(body, "verification_uri"),
        expires_in: json_u64(body, "expires_in"),
        interval: json_u64(body, "interval"),
    };
    proof {
        assert(device_code_fields(members) == json_device_code_fields(body@));
    }
    decide_device_code_reply(status_code, status, body, members)
}

/// What happened since the last wait while polling for the token.
pub enum PollEvent {
    /// The time allowed for authorisation (`expires_in`) has run out.
    DeadlinePassed,
    /// GitHub answered a token request.
    Reply { status_code: u16, status: String, body: String },
}

/// What the poller does next.
#[derive(Debug)]
pub enum PollAction {
    /// Wait this many seconds, then ask again.
    Wait { interval: u64 },
    /// Give up with this message.
    Fail(String),
    /// The user authorised the app; here is the access token.
    Authorized(String),
}

/// The abstract outcome of one poll step.
pub enum PollOutcome {
    Wait(u64),
    Fail(Seq<char>),
    Authorized(Seq<char>),
}

pub open spec fn action_view(a: PollAction) -> PollOutcome {
    match a {
        PollAction::Wait { interval } => PollOutcome::Wait(interval),
        PollAction::Fail(m) => PollOutcome::Fail(m@),
        PollAction::Authorized(t) => PollOutcome::Authorized(t@),
    }
}

/// A poller's action means what it says: waiting carries its interval,
/// failing its message and signing in its token.
pub proof fn actions_carry_their_values(a: PollAction)
    ensures
        a matches PollAction::Wait { interval } ==> action_view(a) == PollOutcome::Wait(interval),
        a matches PollAction::Fail(m) ==> action_view(a) == PollOutcome::Fail(m@),
        a matches PollAction::Authorized(t) ==> action_view(a) == PollOutcome::Authorized(t@),
{
}

/// One step of the polling loop, from a reply's status, body and members. A
/// failed HTTP status ends it with GitHub's error; a token ends it with
/// success; `authorization_pending` keeps the interval and `slow_down`
/// lengthens it by five seconds; an expired code, a denial, any other error,
/// or a reply with neither token nor error ends it.
pub open spec fn poll_decision(interval: u64, code: u16, status: Seq<char>, body: Seq<char>, f: TokenFields) -> PollOutcome {
    if !is_success(code) {
        PollOutcome::Fail(http_failure_text(status, body, f.error, f.error_description))
    } else if f.access_token is Some {
        PollOutcome::Authorized(f.access_token->0)
    } else {
        match f.error {
            Some(e) => {
                if e == "authorization_pending"@ {
                    PollOutcome::Wait(interval)
                } else if e == "slow_down"@ {
                    PollOutcome::Wait((interval + 5) as u64)
                } else if e == "expired_token"@ {
                    PollOutcome::Fail("The authorization code expired. Please sign in again."@)
                } else if e == "access_denied"@ {
                    PollOutcome::Fail("Authorization was denied. Please try again."@)
                } else {
                    PollOutcome::Fail("Authorization error: "@ + e)
                }
            },
            None => PollOutcome::Fail("Unexpected response from GitHub authorization server."@),
        }
    }
}

/// How GitHub's token replies are answered: a failed HTTP status ends
/// polling with the status, the `error` member (else "unknown error") and
/// the `error_description` member (else the body); a token signs in with
/// exactly that token; "authorization_pending" waits the same interval,
/// "slow_down" five seconds longer; "expired_token" and "access_denied" end
/// polling with their messages, any other error with "Authorization error:"
/// and its name, and a reply with neither token nor error as unexpected.
pub proof fn poll_replies_are_answered(interval: u64, code: u16, status: Seq<char>, body: Seq<char>, f: TokenFields)
    requires
        interval <= u64::MAX - 5,
    ensures
        !(200 <= code && code < 300) ==> poll_decision(interval, code, status, body, f) == PollOutcome::Fail(
            "GitHub returned HTTP "@ + status + ": "@ + (match f.error { Some(e) => e, None => "unknown error"@ })
                + " — "@ + (match f.error_description { Some(d) => d, None => body }),
        ),
        200 <= code && code < 300 ==> match f.access_token {
            Some(t) => poll_decision(interval, code, status, body, f) == PollOutcome::Authorized(t),
            None => match f.error {
                Some(e) => if e == "authorization_pending"@ {
                    poll_decision(interval, code, status, body, f) == PollOutcome::Wait(interval)
                } else if e == "slow_down"@ {
                    poll_decision(interval, code, status, body, f) == PollOutcome::Wait((interval + 5) as u64)
                } else if e == "expired_token"@ {
                    poll_decision(interval, code, status, body, f)
                        == PollOutcome::Fail("The authorization code expired. Please sign in again."@)
                } else if e == "access_denied"@ {
                    poll_decision(interval, code, status, body, f) == PollOutcome::Fail("Authorization was denied. Please try again."@)
                } else {
                    poll_decision(interval, code, status, body, f) == PollOutcome::Fail("Authorization error: "@ + e)
                },
                None => poll_decision(interval, code, status, body, f)
                    == PollOutcome::Fail("Unexpected response from GitHub authorization server."@),
            },
        },
{
}

/// How GitHub's reply to the device-code request is read: a failed status
/// or an `error` member is an error (naming the status, error and
/// description); otherwise the device code, user code and verification
/// address are required, in that order, and are handed on as given, with the
/// expiry and polling interval as given or 900 s and 5 s.
pub proof fn device_code_replies_are_read(code: u16, status: Seq<char>, body: Seq<char>, f: DeviceCodeFields)
    ensures
        !(200 <= code && code < 300) ==> device_code_decision(code, status, body, f) == Err::<(Seq<char>, Seq<char>, Seq<char>, u64, u64), Seq<char>>("GitHub returned HTTP "@ + status + ": "@ + (match f.error { Some(e) => e, None => "unknown error"@ })
                + " — "@ + (match f.error_description { Some(d) => d, None => body })
                + "\nVerify that the Client ID is correct and Device Flow is enabled on your OAuth App at https://github.com/settings/developers"@),
        200 <= code && code < 300 ==> match f.error {
            Some(e) => device_code_decision(code, status, body, f) == Err::<(Seq<char>, Seq<char>, Seq<char>, u64, u64), Seq<char>>("GitHub auth error: "@ + e + " — "@
                + (match f.error_description { Some(d) => d, None => "No description provided by GitHub."@ })
                + "\nIf the error is \"unauthorized_client\", ensure Device Flow is enabled on your OAuth App at https://github.com/settings/developers"@),
            None => match (f.device_code, f.user_code, f.verification_uri) {
                (Some(d), Some(u), Some(v)) => device_code_decision(code, status, body, f) == Ok::<(Seq<char>, Seq<char>, Seq<char>, u64, u64), Seq<char>>((
                    d, u, v,
                    match f.expires_in { Some(x) => x, None => 900u64 },
                    match f.interval { Some(x) => x, None => 5u64 },
                )),
                (None, _, _) => device_code_decision(code, status, body, f) == Err::<(Seq<char>, Seq<char>, Seq<char>, u64, u64), Seq<char>>("Missing device_code in response"@),
                (Some(_), None, _) => device_code_decision(code, status, body, f) == Err::<(Seq<char>, Seq<char>, Seq<char>, u64, u64), Seq<char>>("Missing user_code in response"@),
                (Some(_), Some(_), None) => device_code_decision(code, status, body, f) == Err::<(Seq<char>, Seq<char>, Seq<char>, u64, u64), Seq<char>>("Missing verification_uri in response"@),
            },
        },
{
}

/// One step of the polling loop, the members read from the body.
pub open spec fn poll_outcome(interval: u64, code: u16, status: Seq<char>, body: Seq<char>) -> PollOutcome {
    poll_decision(interval, code, status, body, json_token_fields(body))
}

/// Decides the next move of the token poller on a reply, given its status
/// code, the status's display text, the body and the members read from it.
///
/// The interval must leave room for the five seconds a `slow_down` adds.
pub fn decide_poll(interval: u64, status_code: u16, status: &str, body: &str, members: TokenMembers) -> (r: PollAction)
    requires
        interval <= u64::MAX - 5,
    ensures
        action_view(r) == poll_decision(interval, status_code, status@, body@, token_fields(members)),
{
    if !(200 <= status_code && status_code < 300) {
        return PollAction::Fail(failure_text(status, body, &members.error, &members.error_description));
    }
    match members.access_token {
        Some(token) => return PollAction::Authorized(token),
        None => {}
    }
    match members.error {
        Some(e) => {
            if text_eq(e.as_str(), "authorization_pending") {
                PollAction::Wait { interval }
            } else if text_eq(e.as_str(), "slow_down") {
                PollAction::Wait { interval: interval + 5 }
            } else if text_eq(e.as_str(), "expired_token") {
                PollAction::Fail(String::from_str("The authorization code expired. Please sign in again."))
            } else if text_eq(e.as_str(), "access_denied") {
                PollAction::Fail(String::from_str("Authorization was denied. Please try again."))
            } else {
                let mut msg = String::from_str("Authorization error: ");
                msg.append(e.as_str());
                PollAction::Fail(msg)
            }
        }
        None => PollAction::Fail(String::from_str("Unexpected response from GitHub authorization server.")),
    }
}

/// Decides the next move of the token poller, which waits `interval`
/// seconds between requests.
///
/// The interval must leave room for the five seconds a `slow_down` adds.
pub fn poll_step(interval: u64, event: &PollEvent) -> (r: PollAction)
    requires
        interval <= u64::MAX - 5,
    ensures
        match event {
            PollEvent::DeadlinePassed =>
                action_view(r) == PollOutcome::Fail("Authorization timed out. Please try again."@),
            PollEvent::Reply { status_code, status, body } =>
                action_view(r) == poll_outcome(interval, *status_code, status@, body@),
        },
{
    match event {
        PollEvent::DeadlinePassed => PollAction::Fail(String::from_str("Authorization timed out. Please try again.")),
        PollEvent::Reply { status_code, status, body } => {
            let members = TokenMembers {
                access_token: json_text(body.as_str(), "access_token"),
                error: json_text(body.as_str(), "error"),
                error_description: json_text(body.as_str(), "error_description"),
            };
            proof {
                reveal_strlit("access_token");
                reveal_strlit("error");
                reveal_strlit("error_description");
                assert(token_fields(members) == json_token_fields(body@));
            }
            decide_poll(interval, *status_code, status.as_str(), body.as_str(), members)
        }
    }
}

} // verus!
