//! Accounts and the signed-in session: which GitHub accounts are known, which
//! one is active, and how signing in, switching, adding, removing and
//! logging out change that.
//!
//! Tokens themselves live in the OS keyring and the GitHub calls are made by
//! the application; the functions here take the results of those steps and
//! keep the state consistent.
use vstd::prelude::*;
use crate::models::{Account, AccountInfo, RestoreResult};

verus! {

/// The GitHub API client of the octocrab crate (held, never inspected).
#[verifier::external_type_specification]
#[verifier::external_body]
pub struct ExOctocrab(octocrab::Octocrab);

/// Keyring service name under which every entry is stored.
pub const KEYRING_SERVICE: &'static str = "github-export";
/// Keyring user of the token saved by single-account versions.
pub const KEYRING_USER: &'static str = "github-token";
/// Keyring user of the JSON index of accounts.
pub const KEYRING_ACCOUNTS_INDEX: &'static str = "accounts-index";
/// Keyring user of the id of the active account.
pub const KEYRING_ACTIVE_ACCOUNT: &'static str = "active-account-id";

/// What the application knows of the session: the GitHub client and token
/// of the signed-in account, its username and id, and all known accounts
/// (metadata only; tokens stay in the keyring).
pub struct AppState {
    pub client: Option<octocrab::Octocrab>,
    pub token: Option<String>,
    pub username: Option<String>,
    /// The id of the currently active account.
    pub active_account_id: Option<String>,
    /// All known accounts.
    pub accounts: Vec<Account>,
}

impl AppState {
    /// The state before anything is known: no session, no accounts.
    pub open spec fn is_blank(self) -> bool {
        &&& self.client is None
        &&& self.token is None
        &&& self.username is None
        &&& self.active_account_id is None
        &&& self.accounts@.len() == 0
    }

    /// Whether no one is signed in.
    pub open spec fn signed_out(self) -> bool {
        &&& self.client is None
        &&& self.token is None
        &&& self.username is None
        &&& self.active_account_id is None
    }
}

/// What the session predicates say: a blank state has no session and no
/// accounts; a signed-out state has no client, token, username or active
/// account; two states have the same session when those four agree.
pub proof fn session_predicates_mean(s: AppState, t: AppState)
    ensures
        s.is_blank() <==> (s.client is None && s.token is None && s.username is None
            && s.active_account_id is None && s.accounts@.len() == 0),
        s.signed_out() <==> (s.client is None && s.token is None && s.username is None && s.active_account_id is None),
        same_session(s, t) <==> (s.client == t.client && s.token == t.token && s.username == t.username
            && s.active_account_id == t.active_account_id),
{
}

impl Default for AppState {
    fn default() -> (r: AppState)
        ensures
            r.is_blank(),
    {
        AppState { client: None, token: None, username: None, active_account_id: None, accounts: Vec::new() }
    }
}

/// Whether some account in `accounts` has the username `name`.
pub open spec fn has_username(accounts: Seq<Account>, name: Seq<char>) -> bool {
    exists|k: int| 0 <= k < accounts.len() && #[trigger] accounts[k].username@ == name
}

/// Whether some account in `accounts` has the id `id`.
pub open spec fn has_id(accounts: Seq<Account>, id: Seq<char>) -> bool {
    exists|k: int| 0 <= k < accounts.len() && #[trigger] accounts[k].id@ == id
}

/// No two accounts share a username.
pub open spec fn usernames_unique(accounts: Seq<Account>) -> bool {
    forall|i: int, j: int|
        0 <= i < accounts.len() && 0 <= j < accounts.len() && i != j
            ==> #[trigger] accounts[i].username@ != #[trigger] accounts[j].username@
}

/// The position of the first account with username `name`, if any.
pub open spec fn first_with_username(accounts: Seq<Account>, name: Seq<char>) -> Option<int>
    decreases accounts.len(),
{
    if accounts.len() == 0 {
        None
    } else {
        match first_with_username(accounts.drop_last(), name) {
            Some(k) => Some(k),
            None => if accounts.last().username@ == name { Some(accounts.len() - 1) } else { None },
        }
    }
}

/// `accounts` without those whose id is `id`, in the same order.
pub open spec fn without_id(accounts: Seq<Account>, id: Seq<char>) -> Seq<Account>
    decreases accounts.len(),
{
    if accounts.len() == 0 {
        accounts
    } else if accounts.last().id@ == id {
        without_id(accounts.drop_last(), id)
    } else {
        without_id(accounts.drop_last(), id).push(accounts.last())
    }
}

/// The view of an account as the user sees it.
pub open spec fn info_matches(info: AccountInfo, a: Account, active: Seq<char>) -> bool {
    &&& info.id@ == a.id@
    &&& info.label@ == a.label@
    &&& info.username@ == a.username@
    &&& info.is_active == (a.id@ == active)
}

proof fn lemma_first_with_username(accounts: Seq<Account>, name: Seq<char>)
    ensures
        first_with_username(accounts, name) is Some <==> has_username(accounts, name),
        first_with_username(accounts, name) matches Some(k) ==> 0 <= k < accounts.len()
            && accounts[k].username@ == name
            && forall|j: int| 0 <= j < k ==> #[trigger] accounts[j].username@ != name,
    decreases accounts.len(),
{
    if accounts.len() > 0 {
        let init = accounts.drop_last();
        lemma_first_with_username(init, name);
        if has_username(accounts, name) && !has_username(init, name) {
            let k = choose|k: int| 0 <= k < accounts.len() && #[trigger] accounts[k].username@ == name;
            if k < accounts.len() - 1 {
                assert(init[k] == accounts[k]);
            }
        }
        if has_username(init, name) {
            let k = choose|k: int| 0 <= k < init.len() && #[trigger] init[k].username@ == name;
            assert(accounts[k] == init[k]);
        }
        match first_with_username(init, name) {
            Some(k) => {
                assert forall|j: int| 0 <= j < k implies #[trigger] accounts[j].username@ != name by {
                    assert(accounts[j] == init[j]);
                }
                assert(accounts[k] == init[k]);
            },
            None => {
                assert forall|j: int| 0 <= j < accounts.len() - 1 implies #[trigger] accounts[j].username@ != name by {
                    assert(accounts[j] == init[j]);
                }
            },
        }
    }
}

/// Signing in as a username finds the first known account with that
/// username, and only when there is one.
pub proof fn sign_in_finds_first_account_with_username(accounts: Seq<Account>, name: Seq<char>)
    ensures
        first_with_username(accounts, name) is Some
            <==> exists|k: int| 0 <= k < accounts.len() && #[trigger] accounts[k].username@ == name,
        first_with_username(accounts, name) matches Some(k) ==> 0 <= k < accounts.len()
            && accounts[k].username@ == name
            && forall|j: int| 0 <= j < k ==> #[trigger] accounts[j].username@ != name,
{
    lemma_first_with_username(accounts, name);
}

/// An account shown to the user carries its account's id, label and
/// username, and is marked active exactly when its id is the active one.
pub proof fn shown_account_is_the_account(info: AccountInfo, a: Account, active: Seq<char>)
    requires
        info_matches(info, a, active),
    ensures
        info.id@ == a.id@,
        info.label@ == a.label@,
        info.username@ == a.username@,
        info.is_active <==> a.id@ == active,
{
}

/// Forgetting an account keeps exactly the accounts with another id, in
/// their order.
pub proof fn forgetting_keeps_the_other_accounts(accounts: Seq<Account>, id: Seq<char>)
    ensures
        without_id(accounts, id) == accounts.filter(|a: Account| a.id@ != id),
    decreases accounts.len(),
{
    reveal(Seq::filter);
    if accounts.len() > 0 {
        forgetting_keeps_the_other_accounts(accounts.drop_last(), id);
    }
}

fn copy_account(a: &Account) -> (r: Account)
    ensures
        r == *a,
{
    Account { id: a.id.clone(), label: a.label.clone(), username: a.username.clone() }
}

/// The id a sign-in as `username` lands on: that of the first known account
/// with this username, or `fresh_id` for a new account (the flag tells which).
pub fn login_target(state: &AppState, username: &String, fresh_id: String) -> (r: (String, bool))
    ensures
        match first_with_username(state.accounts@, username@) {
            Some(k) => r.0@ == state.accounts@[k].id@ && !r.1,
            None => r.0 == fresh_id && r.1,
        },
        r.1 ==> !has_username(state.accounts@, username@),
{
    proof { lemma_first_with_username(state.accounts@, username@); }
    let n = state.accounts.len();
    for k in 0..n
        invariant
            n == state.accounts@.len(),
            forall|j: int| 0 <= j < k ==> #[trigger] state.accounts@[j].username@ != username@,
    {
        if state.accounts[k].username == *username {
            proof {
                lemma_first_with_username(state.accounts@, username@);
                assert(state.accounts@[k as int].username@ == username@);
                let f = first_with_username(state.accounts@, username@);
                assert(f is Some);
                let fk = f->0;
                if fk < k { assert(state.accounts@[fk].username@ != username@); }
                if fk > k { assert(state.accounts@[k as int].username@ != username@); }
            }
            return (state.accounts[k].id.clone(), false);
        }
    }
    proof {
        if has_username(state.accounts@, username@) {
            let k = choose|k: int| 0 <= k < state.accounts@.len() && #[trigger] state.accounts@[k].username@ == username@;
            assert(state.accounts@[k].username@ != username@);
        }
    }
    (fresh_id, true)
}

/// Makes `account_id` the active account of a session signed in with
/// `client`, `token` and `username`; the known accounts are untouched.
pub fn activate(state: &mut AppState, client: octocrab::Octocrab, token: String, username: String, account_id: String)
    ensures
        final(state).client == Some(client),
        final(state).token == Some(token),
        final(state).username == Some(username),
        final(state).active_account_id == Some(account_id),
        final(state).accounts == old(state).accounts,
{
    state.client = Some(client);
    state.token = Some(token);
    state.username = Some(username);
    state.active_account_id = Some(account_id);
}

/// Finishes a sign-in (personal access token or device flow) whose token has
/// been stored under `account_id`, the id `login_target` gave: a new account
/// is recorded with `label` (the username when there is none), and the
/// account becomes the active one.
pub fn complete_login(
    state: &mut AppState,
    client: octocrab::Octocrab,
    token: String,
    username: String,
    label: Option<String>,
    account_id: String,
    is_new: bool,
)
    requires
        is_new ==> !has_username(old(state).accounts@, username@),
    ensures
        final(state).client == Some(client),
        final(state).token == Some(token),
        final(state).username == Some(username),
        final(state).active_account_id == Some(account_id),
        !is_new ==> final(state).accounts@ == old(state).accounts@,
        is_new ==> final(state).accounts@.len() == old(state).accounts@.len() + 1
            && final(state).accounts@.drop_last() == old(state).accounts@
            && final(state).accounts@.last().id == account_id
            && final(state).accounts@.last().username == username
            && final(state).accounts@.last().label@ == match label { Some(l) => l@, None => username@ },
        usernames_unique(old(state).accounts@) ==> usernames_unique(final(state).accounts@),
{
    if is_new {
        let display_label = match label {
            Some(l) => l,
            None => username.clone(),
        };
        let account = Account { id: account_id.clone(), label: display_label, username: username.clone() };
        let ghost before = state.accounts@;
        state.accounts.push(account);
        proof {
            assert(state.accounts@.drop_last() =~= before);
            if usernames_unique(before) {
                assert forall|i: int, j: int|
                    0 <= i < state.accounts@.len() && 0 <= j < state.accounts@.len() && i != j
                    implies #[trigger] state.accounts@[i].username@ != #[trigger] state.accounts@[j].username@ by {
                    if i < before.len() && j < before.len() {
                        assert(state.accounts@[i] == before[i] && state.accounts@[j] == before[j]);
                    } else if i < before.len() {
                        assert(state.accounts@[i] == before[i]);
                    } else {
                        assert(state.accounts@[j] == before[j]);
                    }
                }
            }
        }
    }
    activate(state, client, token, username, account_id);
}

/// Refuses to add an account whose username is already saved.
pub fn check_new_account(state: &AppState, username: &String) -> (r: Result<(), String>)
    ensures
        r is Ok <==> !has_username(state.accounts@, username@),
        r matches Err(e) ==> e@ == "Account @"@ + username@ + " is already saved."@,
{
    let n = state.accounts.len();
    for k in 0..n
        invariant
            n == state.accounts@.len(),
            forall|j: int| 0 <= j < k ==> #[trigger] state.accounts@[j].username@ != username@,
    {
        if state.accounts[k].username == *username {
            let mut msg = String::from_str("Account @");
            msg.append(username.as_str());
            msg.append(" is already saved.");
            return Err(msg);
        }
    }
    Ok(())
}

/// Records an account added without signing in to it (its token is already
/// stored under `id`), labelled `label` or its username, and reports it.
pub fn add_account_entry(state: &mut AppState, id: String, label: Option<String>, username: String) -> (r: AccountInfo)
    requires
        !has_username(old(state).accounts@, username@),
    ensures
        final(state).accounts@.drop_last() == old(state).accounts@,
        final(state).accounts@.len() == old(state).accounts@.len() + 1,
        final(state).accounts@.last().id == id,
        final(state).accounts@.last().username == username,
        final(state).accounts@.last().label@ == match label { Some(l) => l@, None => username@ },
        r.id == id && r.username == username,
        r.label@ == final(state).accounts@.last().label@,
        r.is_active == (old(state).active_account_id.deep_view() == Some(id@)),
        final(state).client == old(state).client,
        final(state).token == old(state).token,
        final(state).username == old(state).username,
        final(state).active_account_id == old(state).active_account_id,
        usernames_unique(old(state).accounts@) ==> usernames_unique(final(state).accounts@),
{
    let display_label = match label {
        Some(l) => l,
        None => username.clone(),
    };
    let is_active = match &state.active_account_id {
        Some(a) => *a == id,
        None => false,
    };
    let account = Account { id: id.clone(), label: display_label.clone(), username: username.clone() };
    let ghost before = state.accounts@;
    state.accounts.push(account);
    proof {
        assert(state.accounts@.drop_last() =~= before);
        if usernames_unique(before) {
            assert forall|i: int, j: int|
                0 <= i < state.accounts@.len() && 0 <= j < state.accounts@.len() && i != j
                implies #[trigger] state.accounts@[i].username@ != #[trigger] state.accounts@[j].username@ by {
                if i < before.len() && j < before.len() {
                    assert(state.accounts@[i] == before[i] && state.accounts@[j] == before[j]);
                } else if i < before.len() {
                    assert(state.accounts@[i] == before[i]);
                } else {
                    assert(state.accounts@[j] == before[j]);
                }
            }
        }
    }
    AccountInfo { id, label: display_label, username, is_active }
}

/// Refuses to switch to an account that is not known.
pub fn check_account_exists(state: &AppState, account_id: &String) -> (r: Result<(), String>)
    ensures
        r is Ok <==> has_id(state.accounts@, account_id@),
        r matches Err(e) ==> e@ == "Account "@ + account_id@ + " not found"@,
{
    let n = state.accounts.len();
    for k in 0..n
        invariant
            n == state.accounts@.len(),
            forall|j: int| 0 <= j < k ==> #[trigger] state.accounts@[j].id@ != account_id@,
    {
        if state.accounts[k].id == *account_id {
            return Ok(());
        }
    }
    let mut msg = String::from_str("Account ");
    msg.append(account_id.as_str());
    msg.append(" not found");
    Err(msg)
}

/// Drops every account with id `account_id` from the known accounts, keeping
/// the others in order.
pub fn forget_account(state: &mut AppState, account_id: &String)
    ensures
        final(state).accounts@ == without_id(old(state).accounts@, account_id@),
        final(state).client == old(state).client,
        final(state).token == old(state).token,
        final(state).username == old(state).username,
        final(state).active_account_id == old(state).active_account_id,
{
    let mut old_accounts: Vec<Account> = Vec::new();
    std::mem::swap(&mut old_accounts, &mut state.accounts);
    let n = old_accounts.len();
    let mut kept: Vec<Account> = Vec::new();
    for k in 0..n
        invariant
            n == old_accounts@.len(),
            kept@ == without_id(old_accounts@.take(k as int), account_id@),
    {
        proof {
            assert(old_accounts@.take(k + 1).drop_last() =~= old_accounts@.take(k as int));
            assert(old_accounts@.take(k + 1).last() == old_accounts@[k as int]);
        }
        if old_accounts[k].id != *account_id {
            kept.push(copy_account(&old_accounts[k]));
        }
    }
    proof { assert(old_accounts@.take(n as int) =~= old_accounts@); }
    state.accounts = kept;
}

/// Ends the session when `account_id` is the active account (the case where
/// the active account was removed), and tells whether it did.
pub fn end_session_if_active(state: &mut AppState, account_id: &String) -> (r: bool)
    ensures
        r == (old(state).active_account_id.deep_view() == Some(account_id@)),
        r ==> final(state).signed_out(),
        !r ==> final(state).client == old(state).client && final(state).token == old(state).token
            && final(state).username == old(state).username
            && final(state).active_account_id == old(state).active_account_id,
        final(state).accounts == old(state).accounts,
{
    let active = match &state.active_account_id {
        Some(a) => *a == *account_id,
        None => false,
    };
    if active {
        logout(state);
    }
    active
}

/// Disconnects the current session without removing stored accounts.
pub fn logout(state: &mut AppState)
    ensures
        final(state).signed_out(),
        final(state).accounts == old(state).accounts,
{
    state.client = None;
    state.token = None;
    state.username = None;
    state.active_account_id = None;
}

/// The accounts as shown to the user, the one whose id is `active_id`
/// marked active.
pub fn account_infos(accounts: &Vec<Account>, active_id: &str) -> (r: Vec<AccountInfo>)
    ensures
        r@.len() == accounts@.len(),
        forall|k: int| 0 <= k < accounts@.len() ==> info_matches(#[trigger] r@[k], accounts@[k], active_id@),
{
    let active = String::from_str(active_id);
    let mut infos: Vec<AccountInfo> = Vec::new();
    let n = accounts.len();
    for k in 0..n
        invariant
            n == accounts@.len(),
            active@ == active_id@,
            infos@.len() == k,
            forall|j: int| 0 <= j < k ==> info_matches(#[trigger] infos@[j], accounts@[j], active_id@),
    {
        let a = &accounts[k];
        infos.push(AccountInfo {
            id: a.id.clone(),
            label: a.label.clone(),
            username: a.username.clone(),
            is_active: a.id == active,
        });
    }
    infos
}

/// The active id as `list_accounts` compares it: the active account's id,
/// or the empty text when no one is signed in.
pub open spec fn active_or_empty(state: AppState) -> Seq<char> {
    match state.active_account_id {
        Some(id) => id@,
        None => seq![],
    }
}

/// List all accounts known to this application.
pub fn list_accounts(state: &AppState) -> (r: Vec<AccountInfo>)
    ensures
        r@.len() == state.accounts@.len(),
        forall|k: int| 0 <= k < state.accounts@.len() ==>
            info_matches(#[trigger] r@[k], state.accounts@[k], active_or_empty(*state)),
{
    match &state.active_account_id {
        Some(id) => {
            assert(active_or_empty(*state) == id@);
            account_infos(&state.accounts, id.as_str())
        }
        None => {
            proof {
                reveal_strlit("");
                assert(""@ =~= Seq::<char>::empty());
            }
            account_infos(&state.accounts, "")
        }
    }
}

/// The account a restored session signs in to: the remembered one when it is
/// still known, otherwise the first account, otherwise none.
pub open spec fn restore_choice(accounts: Seq<Account>, preferred: Option<Seq<char>>) -> Option<Seq<char>> {
    match preferred {
        Some(p) => if has_id(accounts, p) { Some(p) } else if accounts.len() > 0 { Some(accounts[0].id@) } else { None },
        None => if accounts.len() > 0 { Some(accounts[0].id@) } else { None },
    }
}

/// A restored session signs in to the remembered account when it is still
/// known, otherwise to the first known account, and to none only when no
/// account is known.
pub proof fn restore_prefers_the_remembered_account(accounts: Seq<Account>, preferred: Option<Seq<char>>)
    ensures
        (preferred matches Some(p) && exists|k: int| 0 <= k < accounts.len() && #[trigger] accounts[k].id@ == p)
            ==> restore_choice(accounts, preferred) == preferred,
        !(preferred matches Some(p) && exists|k: int| 0 <= k < accounts.len() && #[trigger] accounts[k].id@ == p)
            && accounts.len() > 0 ==> restore_choice(accounts, preferred) == Some(accounts[0].id@),
        restore_choice(accounts, preferred) is None <==> accounts.len() == 0,
{
    if accounts.len() > 0 {
        assert(accounts[0].id@ == accounts[0].id@);
    }
}

/// Chooses the account a restored session signs in to.
pub fn choose_restored_account(accounts: &Vec<Account>, preferred: Option<String>) -> (r: Option<String>)
    ensures
        r.deep_view() == restore_choice(accounts@, preferred.deep_view()),
{
    match preferred {
        Some(p) => {
            let n = accounts.len();
            for k in 0..n
                invariant
                    n == accounts@.len(),
                    preferred.deep_view() == Some(p@),
                    forall|j: int| 0 <= j < k ==> #[trigger] accounts@[j].id@ != p@,
            {
                if accounts[k].id == p {
                    proof { assert(accounts@[k as int].id@ == p@); }
                    return Some(p);
                }
            }
        }
        None => {}
    }
    if accounts.len() > 0 {
        Some(accounts[0].id.clone())
    } else {
        None
    }
}

/// The account a single-account installation's token is moved to: a new
/// id, labelled with its username.
pub fn legacy_account(id: String, username: String) -> (r: Account)
    ensures
        r.id == id,
        r.label == username,
        r.username == username,
{
    Account { id, label: username.clone(), username }
}

/// What a restored session reports: the signed-in username and all accounts,
/// the restored one marked active.
pub fn restore_result(username: String, accounts: &Vec<Account>, active_id: &String) -> (r: RestoreResult)
    ensures
        r.username == username,
        r.accounts@.len() == accounts@.len(),
        forall|k: int| 0 <= k < accounts@.len() ==> info_matches(#[trigger] r.accounts@[k], accounts@[k], active_id@),
{
    RestoreResult { username, accounts: account_infos(accounts, active_id.as_str()) }
}

/// Where restoring the saved session stands.
pub enum RestoreStage {
    /// The stored account index is being read.
    ReadingIndex,
    /// The index was empty; the token of a single-account installation is
    /// being moved to an account of its own.
    MovingLegacy,
    /// The remembered active account id is being read.
    ReadingPreferred,
    /// The chosen account is being signed in to.
    SigningIn(String),
    /// Restoring is over.
    Finished,
}

/// What the application reports back from the step it was asked to take.
pub enum RestoreEvent {
    /// The stored account index (empty when absent or unreadable).
    IndexRead(Vec<Account>),
    /// The account the single-account token was moved to (its token stored
    /// under its id), or `None` when there was no such token or it could not
    /// be validated or moved.
    LegacyMoved(Option<Account>),
    /// The remembered active account id, if any.
    PreferredRead(Option<String>),
    /// The chosen account's client, token and username, or `None` when its
    /// token is missing or GitHub refuses it.
    SignedIn(Option<(octocrab::Octocrab, String, String)>),
}

/// What the application does next.
pub enum RestoreAction {
    /// Move a single-account token (if any) to a new account and report it.
    MoveLegacyToken,
    /// Read the remembered active account id.
    ReadPreferred,
    /// Load the token of this account, sign in with it and report the result.
    SignIn(String),
    /// Stop; the session restored, or `None` when there is none.
    Finish(Option<RestoreResult>),
}

/// Whether the signed-in session is the same in both states.
pub open spec fn same_session(a: AppState, b: AppState) -> bool {
    &&& a.client == b.client
    &&& a.token == b.token
    &&& a.username == b.username
    &&& a.active_account_id == b.active_account_id
}

/// One step of restoring the saved session: an empty index leads to moving a
/// single-account token; the known accounts are then recorded (nothing to
/// restore without any); the remembered account is chosen if still known,
/// else the first one; and if signing in to it succeeds it becomes the
/// active account and the session is reported with every account.
pub fn restore_step(state: &mut AppState, stage: RestoreStage, event: RestoreEvent) -> (r: (RestoreStage, RestoreAction))
    ensures
        match (stage, event) {
            (RestoreStage::ReadingIndex, RestoreEvent::IndexRead(accounts)) => if accounts@.len() == 0 {
                &&& *final(state) == *old(state)
                &&& r.0 is MovingLegacy && r.1 is MoveLegacyToken
            } else {
                &&& final(state).accounts@ == accounts@
                &&& same_session(*final(state), *old(state))
                &&& r.0 is ReadingPreferred && r.1 is ReadPreferred
            },
            (RestoreStage::MovingLegacy, RestoreEvent::LegacyMoved(moved)) => {
                &&& final(state).accounts@ == match moved { Some(a) => seq![a], None => Seq::<Account>::empty() }
                &&& same_session(*final(state), *old(state))
                &&& moved is None ==> (r.0 is Finished && r.1 matches RestoreAction::Finish(None))
                &&& moved is Some ==> (r.0 is ReadingPreferred && r.1 is ReadPreferred)
            },
            (RestoreStage::ReadingPreferred, RestoreEvent::PreferredRead(preferred)) => {
                &&& *final(state) == *old(state)
                &&& match restore_choice(old(state).accounts@, preferred.deep_view()) {
                    Some(id) => (r.0 matches RestoreStage::SigningIn(i) && i@ == id)
                        && (r.1 matches RestoreAction::SignIn(i) && i@ == id),
                    None => r.0 is Finished && r.1 matches RestoreAction::Finish(None),
                }
            },
            (RestoreStage::SigningIn(id), RestoreEvent::SignedIn(signed)) => {
                &&& r.0 is Finished
                &&& final(state).accounts == old(state).accounts
                &&& match signed {
                    Some((client, token, username)) => {
                        &&& final(state).client == Some(client)
                        &&& final(state).token == Some(token)
                        &&& final(state).username == Some(username)
                        &&& final(state).active_account_id == Some(id)
                        &&& r.1 matches RestoreAction::Finish(Some(res)) && {
                            &&& res.username == username
                            &&& res.accounts@.len() == old(state).accounts@.len()
                            &&& forall|k: int| 0 <= k < old(state).accounts@.len() ==>
                                info_matches(#[trigger] res.accounts@[k], old(state).accounts@[k], id@)
                        }
                    },
                    None => *final(state) == *old(state) && r.1 matches RestoreAction::Finish(None),
                }
            },
            _ => *final(state) == *old(state) && r.0 is Finished && r.1 matches RestoreAction::Finish(None),
        },
{
    match (stage, event) {
        (RestoreStage::ReadingIndex, RestoreEvent::IndexRead(accounts)) => {
            if accounts.len() == 0 {
                (RestoreStage::MovingLegacy, RestoreAction::MoveLegacyToken)
            } else {
                state.accounts = accounts;
                (RestoreStage::ReadingPreferred, RestoreAction::ReadPreferred)
            }
        }
        (RestoreStage::MovingLegacy, RestoreEvent::LegacyMoved(moved)) => {
            match moved {
                Some(a) => {
                    let mut accounts: Vec<Account> = Vec::new();
                    accounts.push(a);
                    state.accounts = accounts;
                    (RestoreStage::ReadingPreferred, RestoreAction::ReadPreferred)
                }
                None => {
                    state.accounts = Vec::new();
                    (RestoreStage::Finished, RestoreAction::Finish(None))
                }
            }
        }
        (RestoreStage::ReadingPreferred, RestoreEvent::PreferredRead(preferred)) => {
            match choose_restored_account(&state.accounts, preferred) {
                Some(id) => (RestoreStage::SigningIn(id.clone()), RestoreAction::SignIn(id)),
                None => (RestoreStage::Finished, RestoreAction::Finish(None)),
            }
        }
        (RestoreStage::SigningIn(id), RestoreEvent::SignedIn(signed)) => {
            match signed {
                Some((client, token, username)) => {
                    activate(state, client, token, username.clone(), id.clone());
                    let res = restore_result(username, &state.accounts, &id);
                    (RestoreStage::Finished, RestoreAction::Finish(Some(res)))
                }
                None => (RestoreStage::Finished, RestoreAction::Finish(None)),
            }
        }
        _ => (RestoreStage::Finished, RestoreAction::Finish(None)),
    }
}

/// The keyring user under which the token of account `account_id` is kept.
pub fn account_token_key(account_id: &str) -> (r: String)
    ensures
        r@ == "token-"@ + account_id@,
{
    let mut key = String::from_str("token-");
    key.append(account_id);
    key
}

/// Calls `uuid::Uuid::new_v4()` and writes it with `to_string`. The value
/// is random; only its hyphenated shape, which uuid's formatter always
/// writes, is stated.
#[verifier::external_body]
fn random_uuid_text() -> (r: String)
    ensures
        r@.len() == 36,
        r@[8] == '-' && r@[13] == '-' && r@[18] == '-' && r@[23] == '-',
{
    uuid::Uuid::new_v4().to_string()
}

/// A fresh, random account id (a hyphenated UUID v4).
pub fn new_account_id() -> (r: String)
    ensures
        r@.len() == 36,
        r@[8] == '-' && r@[13] == '-' && r@[18] == '-' && r@[23] == '-',
{
    random_uuid_text()
}

/// Removing an account right after adding it gives back the accounts there
/// were, provided its id was new.
pub proof fn removing_a_new_account_undoes_adding_it(accounts: Seq<Account>, added: Account)
    requires
        !has_id(accounts, added.id@),
    ensures
        without_id(accounts.push(added), added.id@) == accounts,
{
    assert(accounts.push(added).drop_last() =~= accounts);
    lemma_without_absent(accounts, added.id@);
}

proof fn lemma_without_absent(accounts: Seq<Account>, id: Seq<char>)
    requires
        !has_id(accounts, id),
    ensures
        without_id(accounts, id) == accounts,
    decreases accounts.len(),
{
    if accounts.len() > 0 {
        let init = accounts.drop_last();
        assert forall|k: int| 0 <= k < init.len() implies #[trigger] init[k].id@ != id by {
            assert(init[k] == accounts[k]);
        }
        lemma_without_absent(init, id);
        assert(init.push(accounts.last()) =~= accounts);
    }
}

/// After an account is removed, no known account has its id.
pub proof fn removed_account_is_gone(accounts: Seq<Account>, id: Seq<char>)
    ensures
        !has_id(without_id(accounts, id), id),
        without_id(accounts, id).len() <= accounts.len(),
    decreases accounts.len(),
{
    if accounts.len() > 0 {
        let init = accounts.drop_last();
        removed_account_is_gone(init, id);
        let w = without_id(init, id);
        if accounts.last().id@ != id {
            assert forall|k: int| 0 <= k < w.push(accounts.last()).len() implies #[trigger] w.push(accounts.last())[k].id@ != id by {
                if k < w.len() {
                    assert(w.push(accounts.last())[k] == w[k]);
                    if w[k].id@ == id { assert(has_id(w, id)); }
                }
            }
        }
    }
}

} // verus!
