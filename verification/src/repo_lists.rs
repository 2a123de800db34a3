//! The repositories each account follows: the per-account store that is
//! persisted as JSON, and the edits the user makes to a list.
use vstd::prelude::*;
use crate::models::TrackedRepo;

verus! {

/// The per-account lists, in the order their entries were recorded; a later
/// entry for the same account replaces an earlier one.
pub open spec fn lists_of(entries: Seq<(String, Vec<TrackedRepo>)>) -> Map<Seq<char>, Seq<TrackedRepo>>
    decreases entries.len(),
{
    if entries.len() == 0 {
        Map::empty()
    } else {
        lists_of(entries.drop_last()).insert(entries.last().0@, entries.last().1@)
    }
}

/// The list stored for `account`, empty when there is none.
pub open spec fn stored_list(m: Map<Seq<char>, Seq<TrackedRepo>>, account: Seq<char>) -> Seq<TrackedRepo> {
    if m.contains_key(account) { m[account] } else { seq![] }
}

/// Every account's tracked repositories, as kept in `tracked_repos.json`.
pub struct TrackedRepoStore {
    entries: Vec<(String, Vec<TrackedRepo>)>,
}

impl TrackedRepoStore {
    /// The list of each account.
    pub closed spec fn lists(self) -> Map<Seq<char>, Seq<TrackedRepo>> {
        lists_of(self.entries@)
    }

    /// A store with no lists.
    pub fn new() -> (r: TrackedRepoStore)
        ensures
            r.lists() == Map::<Seq<char>, Seq<TrackedRepo>>::empty(),
    {
        TrackedRepoStore { entries: Vec::new() }
    }

    /// A store from `(account, list)` pairs as read from the JSON file; a
    /// later pair for an account replaces an earlier one.
    pub fn from_entries(entries: Vec<(String, Vec<TrackedRepo>)>) -> (r: TrackedRepoStore)
        ensures
            r.lists() == lists_of(entries@),
    {
        TrackedRepoStore { entries }
    }

    /// The `(account, list)` pairs to write out, in order; a later pair for
    /// an account replaces an earlier one.
    pub fn into_entries(self) -> (r: Vec<(String, Vec<TrackedRepo>)>)
        ensures
            lists_of(r@) == self.lists(),
    {
        self.entries
    }
}

fn copy_repo(r: &TrackedRepo) -> (c: TrackedRepo)
    ensures
        c == *r,
{
    TrackedRepo { full_name: r.full_name.clone(), owner: r.owner.clone(), name: r.name.clone() }
}

fn copy_repos(repos: &[TrackedRepo]) -> (c: Vec<TrackedRepo>)
    ensures
        c@ == repos@,
{
    let mut out: Vec<TrackedRepo> = Vec::new();
    for k in 0..repos.len()
        invariant
            out@ == repos@.take(k as int),
    {
        out.push(copy_repo(&repos[k]));
        proof { assert(out@ =~= repos@.take(k + 1)); }
    }
    proof { assert(repos@.take(repos@.len() as int) =~= repos@); }
    out
}

proof fn lemma_lists_of_last(entries: Seq<(String, Vec<TrackedRepo>)>, account: Seq<char>)
    ensures
        stored_list(lists_of(entries), account) == if entries.len() == 0 {
            seq![]
        } else if entries.last().0@ == account {
            entries.last().1@
        } else {
            stored_list(lists_of(entries.drop_last()), account)
        },
{
}

/// Load the tracked repos for a specific account; an empty list if the
/// account has none.
pub fn load_tracked_repos(store: &TrackedRepoStore, account_id: &str) -> (r: Vec<TrackedRepo>)
    ensures
        r@ == stored_list(store.lists(), account_id@),
{
    let ghost es = store.entries@;
    let mut k = store.entries.len();
    proof { assert(es.take(es.len() as int) =~= es); }
    while k > 0
        invariant
            es == store.entries@,
            k <= es.len(),
            stored_list(lists_of(es), account_id@) == stored_list(lists_of(es.take(k as int)), account_id@),
        decreases k,
    {
        proof {
            lemma_lists_of_last(es.take(k as int), account_id@);
            assert(es.take(k as int).drop_last() =~= es.take(k - 1));
            assert(es.take(k as int).last() == es[k - 1]);
        }
        if text_matches(&store.entries[k - 1].0, account_id) {
            return copy_repos(store.entries[k - 1].1.as_slice());
        }
        k = k - 1;
    }
    proof { assert(es.take(0) =~= Seq::<(String, Vec<TrackedRepo>)>::empty()); }
    Vec::new()
}

fn text_matches(a: &String, b: &str) -> (r: bool)
    ensures
        r == (a@ == b@),
{
    crate::text::text_eq(a.as_str(), b)
}

/// Replace the tracked repos for a specific account.
pub fn save_tracked_repos(store: &mut TrackedRepoStore, account_id: &str, repos: &[TrackedRepo])
    ensures
        final(store).lists() == old(store).lists().insert(account_id@, repos@),
{
    let entry = (String::from_str(account_id), copy_repos(repos));
    store.entries.push(entry);
    proof {
        assert(store.entries@.drop_last() =~= old(store).entries@);
    }
}

/// What is saved for an account is what is loaded for it afterwards, and
/// the other accounts' lists are untouched.
pub proof fn saved_list_is_loaded_back(
    lists: Map<Seq<char>, Seq<TrackedRepo>>,
    account: Seq<char>,
    repos: Seq<TrackedRepo>,
    other: Seq<char>,
)
    requires
        other != account,
    ensures
        stored_list(lists.insert(account, repos), account) == repos,
        stored_list(lists.insert(account, repos), other) == stored_list(lists, other),
{
}

// ── Editing one account's list ─────────────────────────────────────────────

/// Whether some tracked repository has the full name `full_name`.
pub open spec fn tracks(repos: Seq<TrackedRepo>, full_name: Seq<char>) -> bool {
    exists|k: int| 0 <= k < repos.len() && #[trigger] repos[k].full_name@ == full_name
}

/// The list after adding `entry`: unchanged when its full name is already
/// tracked, otherwise with `entry` appended.
pub open spec fn list_with(repos: Seq<TrackedRepo>, entry: TrackedRepo) -> Seq<TrackedRepo> {
    if tracks(repos, entry.full_name@) { repos } else { repos.push(entry) }
}

/// The list without the repositories named `full_name`, in the same order.
pub open spec fn list_without(repos: Seq<TrackedRepo>, full_name: Seq<char>) -> Seq<TrackedRepo>
    decreases repos.len(),
{
    if repos.len() == 0 {
        repos
    } else if repos.last().full_name@ == full_name {
        list_without(repos.drop_last(), full_name)
    } else {
        list_without(repos.drop_last(), full_name).push(repos.last())
    }
}

/// Adding a repository appends it when no tracked repository has its full
/// name, and leaves the list as it was when one has; removing a full name
/// keeps exactly the repositories with another full name, in their order.
pub proof fn list_edits_follow_full_names(repos: Seq<TrackedRepo>, entry: TrackedRepo, full_name: Seq<char>)
    ensures
        (exists|k: int| 0 <= k < repos.len() && #[trigger] repos[k].full_name@ == entry.full_name@)
            ==> list_with(repos, entry) == repos,
        !(exists|k: int| 0 <= k < repos.len() && #[trigger] repos[k].full_name@ == entry.full_name@)
            ==> list_with(repos, entry) == repos.push(entry),
        list_without(repos, full_name) == repos.filter(|r: TrackedRepo| r.full_name@ != full_name),
    decreases repos.len(),
{
    reveal(Seq::filter);
    if repos.len() > 0 {
        list_edits_follow_full_names(repos.drop_last(), entry, full_name);
    }
}

/// The list stored for an account is the one recorded last for it, and an
/// account with no recorded list has the empty list.
pub proof fn stored_list_is_the_last_recorded(entries: Seq<(String, Vec<TrackedRepo>)>, account: Seq<char>, k: int)
    requires
        0 <= k < entries.len(),
        entries[k].0@ == account,
        forall|m: int| k < m < entries.len() ==> #[trigger] entries[m].0@ != account,
    ensures
        stored_list(lists_of(entries), account) == entries[k].1@,
    decreases entries.len(),
{
    if k < entries.len() - 1 {
        let init = entries.drop_last();
        assert forall|m: int| k < m < init.len() implies #[trigger] init[m].0@ != account by {
            assert(init[m] == entries[m]);
        }
        assert(init[k] == entries[k]);
        stored_list_is_the_last_recorded(init, account, k);
        assert(entries[entries.len() - 1].0@ != account);
    }
}

/// An account that no entry names has the empty list.
pub proof fn unrecorded_account_has_no_list(entries: Seq<(String, Vec<TrackedRepo>)>, account: Seq<char>)
    requires
        forall|m: int| 0 <= m < entries.len() ==> #[trigger] entries[m].0@ != account,
    ensures
        stored_list(lists_of(entries), account).len() == 0,
    decreases entries.len(),
{
    if entries.len() > 0 {
        let init = entries.drop_last();
        assert forall|m: int| 0 <= m < init.len() implies #[trigger] init[m].0@ != account by {
            assert(init[m] == entries[m]);
        }
        unrecorded_account_has_no_list(init, account);
        assert(entries[entries.len() - 1].0@ != account);
    }
}

fn find_tracked(repos: &Vec<TrackedRepo>, full_name: &String) -> (r: bool)
    ensures
        r == tracks(repos@, full_name@),
{
    for k in 0..repos.len()
        invariant
            forall|j: int| 0 <= j < k ==> #[trigger] repos@[j].full_name@ != full_name@,
    {
        if repos[k].full_name == *full_name {
            proof { assert(repos@[k as int].full_name@ == full_name@); }
            return true;
        }
    }
    false
}

/// Adds a repository to a tracked list; the flag tells whether the list
/// changed (and so must be saved). Adding an already tracked repository
/// leaves the list as it is.
pub fn with_tracked_repo(repos: Vec<TrackedRepo>, full_name: String, owner: String, name: String) -> (r: (Vec<TrackedRepo>, bool))
    ensures
        r.0@ == list_with(repos@, TrackedRepo { full_name, owner, name }),
        r.1 == !tracks(repos@, full_name@),
{
    if find_tracked(&repos, &full_name) {
        (repos, false)
    } else {
        let mut repos = repos;
        repos.push(TrackedRepo { full_name, owner, name });
        (repos, true)
    }
}

/// Removes the repositories named `full_name` from a tracked list; the flag
/// tells whether anything was removed (and so must be saved).
pub fn without_tracked_repo(repos: Vec<TrackedRepo>, full_name: &String) -> (r: (Vec<TrackedRepo>, bool))
    ensures
        r.0@ == list_without(repos@, full_name@),
        r.1 == (r.0@.len() < repos@.len()),
{
    let ghost all = repos@;
    let n = repos.len();
    let mut kept: Vec<TrackedRepo> = Vec::new();
    for x in it: repos.into_iter()
        invariant
            it.seq() == all,
            kept@ == list_without(all.take(it.index() as int), full_name@),
    {
        proof {
            assert(all.take(it.index() + 1).drop_last() =~= all.take(it.index() as int));
            assert(all.take(it.index() + 1).last() == x);
        }
        if x.full_name != *full_name {
            kept.push(x);
        }
    }
    proof {
        assert(all.take(all.len() as int) =~= all);
        lemma_without_shrinks(all, full_name@);
    }
    let changed = kept.len() < n;
    (kept, changed)
}

proof fn lemma_without_shrinks(repos: Seq<TrackedRepo>, full_name: Seq<char>)
    ensures
        list_without(repos, full_name).len() <= repos.len(),
        !tracks(list_without(repos, full_name), full_name),
        list_without(repos, full_name).len() == repos.len() <==> !tracks(repos, full_name),
    decreases repos.len(),
{
    if repos.len() > 0 {
        let init = repos.drop_last();
        lemma_without_shrinks(init, full_name);
        let w = list_without(init, full_name);
        if repos.last().full_name@ != full_name {
            assert forall|k: int| 0 <= k < w.push(repos.last()).len() implies #[trigger] w.push(repos.last())[k].full_name@ != full_name by {
                if k < w.len() {
                    assert(w.push(repos.last())[k] == w[k]);
                    if w[k].full_name@ == full_name { assert(tracks(w, full_name)); }
                }
            }
        }
        if tracks(repos, full_name) && !tracks(init, full_name) {
            let k = choose|k: int| 0 <= k < repos.len() && #[trigger] repos[k].full_name@ == full_name;
            if k < init.len() { assert(init[k] == repos[k]); }
        }
        if tracks(init, full_name) {
            let k = choose|k: int| 0 <= k < init.len() && #[trigger] init[k].full_name@ == full_name;
            assert(repos[k] == init[k]);
        }
        if !tracks(repos, full_name) {
            if tracks(init, full_name) {
                let k = choose|k: int| 0 <= k < init.len() && #[trigger] init[k].full_name@ == full_name;
                assert(repos[k] == init[k]);
            }
            assert(repos[repos.len() - 1] == repos.last());
        }
    }
}

/// Adding a repository twice is the same as adding it once.
pub proof fn adding_twice_is_adding_once(repos: Seq<TrackedRepo>, entry: TrackedRepo)
    ensures
        list_with(list_with(repos, entry), entry) == list_with(repos, entry),
        tracks(list_with(repos, entry), entry.full_name@),
{
    if !tracks(repos, entry.full_name@) {
        assert(repos.push(entry)[repos.len() as int] == entry);
    }
}

/// After a repository is removed, nothing of that name is tracked; removing
/// a repository just added gives back the list there was.
pub proof fn removing_undoes_adding(repos: Seq<TrackedRepo>, entry: TrackedRepo)
    ensures
        !tracks(list_without(repos, entry.full_name@), entry.full_name@),
        !tracks(repos, entry.full_name@) ==> list_without(list_with(repos, entry), entry.full_name@) == repos,
{
    lemma_without_shrinks(repos, entry.full_name@);
    if !tracks(repos, entry.full_name@) {
        assert(repos.push(entry).drop_last() =~= repos);
        lemma_without_absent(repos, entry.full_name@);
    }
}

proof fn lemma_without_absent(repos: Seq<TrackedRepo>, full_name: Seq<char>)
    requires
        !tracks(repos, full_name),
    ensures
        list_without(repos, full_name) == repos,
    decreases repos.len(),
{
    if repos.len() > 0 {
        let init = repos.drop_last();
        assert forall|k: int| 0 <= k < init.len() implies #[trigger] init[k].full_name@ != full_name by {
            assert(init[k] == repos[k]);
        }
        lemma_without_absent(init, full_name);
        assert(repos[repos.len() - 1] == repos.last());
        assert(init.push(repos.last()) =~= repos);
    }
}

} // verus!
