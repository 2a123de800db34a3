//! The checks the application's commands make before they act: who is
//! signed in, whether a repository identifier is well formed, and whether a
//! comment or a new issue fits GitHub's limits.
use vstd::prelude::*;
use crate::auth::AppState;

verus! {

/// What `str::trim` gives for `s`: `s` without leading and trailing
/// Unicode white space.
pub uninterp spec fn trimmed(s: Seq<char>) -> Seq<char>;

/// Whether std's `char::is_alphanumeric` holds of `c` (Unicode Alphabetic
/// or Numeric).
pub uninterp spec fn alphanumeric(c: char) -> bool;

/// Calls std's `str::trim`. The result is only named.
#[verifier::external_body]
fn trim_text(s: &str) -> (r: String)
    ensures
        r@ == trimmed(s@),
{
    s.trim().to_string()
}

/// Calls std's `char::is_alphanumeric`. The result is only named.
#[verifier::external_body]
fn is_alphanumeric(c: char) -> (r: bool)
    ensures
        r == alphanumeric(c),
{
    c.is_alphanumeric()
}

/// The byte length of a text in UTF-8 (what `str::len` returns).
pub open spec fn byte_len(s: Seq<char>) -> nat {
    vstd::utf8::encode_utf8(s).len()
}

/// The GitHub client of the signed-in session, or `"Not authenticated"`.
pub fn require_client(state: &AppState) -> (r: Result<&octocrab::Octocrab, String>)
    ensures
        state.client matches Some(c) ==> r == Ok::<&octocrab::Octocrab, String>(&c),
        state.client is None ==> (r matches Err(e) && e@ == "Not authenticated"@),
{
    match &state.client {
        Some(c) => Ok(c),
        None => Err(String::from_str("Not authenticated")),
    }
}

/// The token of the signed-in session, or `"Not authenticated"`.
pub fn require_token(state: &AppState) -> (r: Result<String, String>)
    ensures
        state.token matches Some(t) ==> (r matches Ok(x) && x@ == t@),
        state.token is None ==> (r matches Err(e) && e@ == "Not authenticated"@),
{
    match &state.token {
        Some(t) => Ok(t.clone()),
        None => Err(String::from_str("Not authenticated")),
    }
}

/// The account whose repository list is used: the active account, or
/// `"default"` when no one is signed in.
pub fn list_owner_id(state: &AppState) -> (r: String)
    ensures
        r@ == match state.active_account_id { Some(id) => id@, None => "default"@ },
{
    match &state.active_account_id {
        Some(id) => id.clone(),
        None => String::from_str("default"),
    }
}

/// Whether a character may appear in a repository owner or name:
/// alphanumeric, `-`, `_` or `.`.
pub open spec fn name_char(c: char) -> bool {
    alphanumeric(c) || c == '-' || c == '_' || c == '.'
}

fn all_name_chars(s: &str) -> (r: bool)
    ensures
        r == forall|k: int| 0 <= k < s@.len() ==> name_char(#[trigger] s@[k]),
{
    for c in it: s.chars()
        invariant
            it.seq() == s@,
            forall|k: int| 0 <= k < it.index() ==> name_char(#[trigger] s@[k]),
    {
        if !(is_alphanumeric(c) || c == '-' || c == '_' || c == '.') {
            proof { assert(s@[it.index() as int] == c); }
            return false;
        }
        proof { assert(s@[it.index() as int] == c); }
    }
    true
}

/// Checks that a repository identifier is consistent (`full_name` is
/// `owner/name`) and uses only allowed characters, before it is stored.
pub fn check_repo_identifier(full_name: &str, owner: &str, name: &str) -> (r: Result<(), String>)
    ensures
        full_name@ != owner@ + "/"@ + name@ ==>
            (r matches Err(e) && e@ == "Invalid repo identifier: full_name does not match owner/name"@),
        full_name@ == owner@ + "/"@ + name@ ==> {
            let ok = (forall|k: int| 0 <= k < owner@.len() ==> name_char(#[trigger] owner@[k]))
                && (forall|k: int| 0 <= k < name@.len() ==> name_char(#[trigger] name@[k]));
            &&& ok ==> r is Ok
            &&& !ok ==> (r matches Err(e) && e@ == "Invalid characters in repository owner or name"@)
        },
{
    let mut expected = String::from_str(owner);
    expected.append("/");
    expected.append(name);
    if String::from_str(full_name) != expected {
        return Err(String::from_str("Invalid repo identifier: full_name does not match owner/name"));
    }
    if !all_name_chars(owner) || !all_name_chars(name) {
        return Err(String::from_str("Invalid characters in repository owner or name"));
    }
    Ok(())
}

/// The largest comment or issue body GitHub takes, in bytes.
pub const MAX_BODY_BYTES: usize = 65_536;
/// The largest issue title, in bytes.
pub const MAX_TITLE_BYTES: usize = 256;

/// Accepts a trimmed comment body that is neither empty nor longer than
/// GitHub allows.
pub fn check_comment(trimmed_body: String) -> (r: Result<String, String>)
    ensures
        trimmed_body@.len() == 0 ==> (r matches Err(e) && e@ == "Comment body cannot be empty"@),
        trimmed_body@.len() > 0 && byte_len(trimmed_body@) > 65_536 ==>
            (r matches Err(e) && e@ == "Comment exceeds GitHub's maximum length of 65,536 characters"@),
        trimmed_body@.len() > 0 && byte_len(trimmed_body@) <= 65_536 ==> r == Ok::<String, String>(trimmed_body),
{
    if trimmed_body.as_str().is_empty() {
        return Err(String::from_str("Comment body cannot be empty"));
    }
    if trimmed_body.as_str().as_bytes().len() > MAX_BODY_BYTES {
        return Err(String::from_str("Comment exceeds GitHub's maximum length of 65,536 characters"));
    }
    Ok(trimmed_body)
}

/// Trims a comment body and checks it (see [`check_comment`]).
pub fn prepare_comment(body: &str) -> (r: Result<String, String>)
    ensures
        trimmed(body@).len() == 0 ==> (r matches Err(e) && e@ == "Comment body cannot be empty"@),
        trimmed(body@).len() > 0 && byte_len(trimmed(body@)) > 65_536 ==>
            (r matches Err(e) && e@ == "Comment exceeds GitHub's maximum length of 65,536 characters"@),
        trimmed(body@).len() > 0 && byte_len(trimmed(body@)) <= 65_536 ==> (r matches Ok(t) && t@ == trimmed(body@)),
{
    check_comment(trim_text(body))
}

/// Accepts a new issue whose trimmed title is neither empty nor over 256
/// bytes and whose body, if any, is within 65,536 bytes.
pub fn check_new_issue(trimmed_title: String, body: Option<&str>) -> (r: Result<String, String>)
    ensures
        trimmed_title@.len() == 0 ==> (r matches Err(e) && e@ == "Issue title cannot be empty"@),
        trimmed_title@.len() > 0 && byte_len(trimmed_title@) > 256 ==>
            (r matches Err(e) && e@ == "Issue title exceeds maximum length of 256 characters"@),
        trimmed_title@.len() > 0 && byte_len(trimmed_title@) <= 256 ==> match body {
            Some(b) => if byte_len(b@) > 65_536 {
                r matches Err(e) && e@ == "Issue body exceeds GitHub's maximum length of 65,536 characters"@
            } else {
                r == Ok::<String, String>(trimmed_title)
            },
            None => r == Ok::<String, String>(trimmed_title),
        },
{
    if trimmed_title.as_str().is_empty() {
        return Err(String::from_str("Issue title cannot be empty"));
    }
    if trimmed_title.as_str().as_bytes().len() > MAX_TITLE_BYTES {
        return Err(String::from_str("Issue title exceeds maximum length of 256 characters"));
    }
    match body {
        Some(b) => {
            if b.as_bytes().len() > MAX_BODY_BYTES {
                return Err(String::from_str("Issue body exceeds GitHub's maximum length of 65,536 characters"));
            }
        }
        None => {}
    }
    Ok(trimmed_title)
}

/// Trims a new issue's title and checks the issue (see [`check_new_issue`]).
pub fn prepare_new_issue(title: &str, body: Option<&str>) -> (r: Result<String, String>)
    ensures
        trimmed(title@).len() == 0 ==> (r matches Err(e) && e@ == "Issue title cannot be empty"@),
        trimmed(title@).len() > 0 && byte_len(trimmed(title@)) > 256 ==>
            (r matches Err(e) && e@ == "Issue title exceeds maximum length of 256 characters"@),
        trimmed(title@).len() > 0 && byte_len(trimmed(title@)) <= 256 ==> match body {
            Some(b) => if byte_len(b@) > 65_536 {
                r matches Err(e) && e@ == "Issue body exceeds GitHub's maximum length of 65,536 characters"@
            } else {
                r matches Ok(t) && t@ == trimmed(title@)
            },
            None => (r matches Ok(t) && t@ == trimmed(title@)),
        },
{
    check_new_issue(trim_text(title), body)
}

/// Whether the application runs on mock data (never, in this build).
pub fn get_dev_mode() -> (r: bool)
    ensures
        !r,
{
    false
}

} // verus!
