use github_export::models::TrackedRepo;
use github_export::repo_lists::{
    load_tracked_repos, save_tracked_repos, with_tracked_repo, without_tracked_repo, TrackedRepoStore,
};

fn repo(owner: &str, name: &str) -> TrackedRepo {
    TrackedRepo { full_name: format!("{owner}/{name}"), owner: owner.to_string(), name: name.to_string() }
}

fn names(repos: &[TrackedRepo]) -> Vec<String> {
    repos.iter().map(|r| r.full_name.clone()).collect()
}

#[test]
fn saved_lists_are_loaded_back_per_account() {
    let mut store = TrackedRepoStore::new();
    assert!(load_tracked_repos(&store, "acc-1").is_empty());
    save_tracked_repos(&mut store, "acc-1", &[repo("octocat", "Hello-World")]);
    save_tracked_repos(&mut store, "acc-2", &[repo("a", "b"), repo("c", "d")]);
    assert_eq!(names(&load_tracked_repos(&store, "acc-1")), vec!["octocat/Hello-World"]);
    assert_eq!(names(&load_tracked_repos(&store, "acc-2")), vec!["a/b", "c/d"]);
    save_tracked_repos(&mut store, "acc-1", &[]);
    assert!(load_tracked_repos(&store, "acc-1").is_empty());
    assert_eq!(load_tracked_repos(&store, "acc-2").len(), 2);
}

#[test]
fn store_from_entries_lets_later_entries_win() {
    let store = TrackedRepoStore::from_entries(vec![
        ("x".to_string(), vec![repo("a", "b")]),
        ("x".to_string(), vec![repo("c", "d")]),
    ]);
    assert_eq!(names(&load_tracked_repos(&store, "x")), vec!["c/d"]);
    assert_eq!(store.into_entries().len(), 2);
}

#[test]
fn adding_is_idempotent() {
    let (list, changed) = with_tracked_repo(vec![], "a/b".to_string(), "a".to_string(), "b".to_string());
    assert!(changed);
    let (list, changed) = with_tracked_repo(list, "a/b".to_string(), "a".to_string(), "b".to_string());
    assert!(!changed);
    assert_eq!(names(&list), vec!["a/b"]);
}

#[test]
fn removing_drops_the_repo() {
    let list = vec![repo("a", "b"), repo("c", "d"), repo("a", "b")];
    let (list, changed) = without_tracked_repo(list, &"a/b".to_string());
    assert!(changed);
    assert_eq!(names(&list), vec!["c/d"]);
    let (list, changed) = without_tracked_repo(list, &"zz/top".to_string());
    assert!(!changed);
    assert_eq!(names(&list), vec!["c/d"]);
}

#[test]
fn removing_what_was_added_restores_the_list() {
    let start = vec![repo("c", "d")];
    let (added, _) = with_tracked_repo(start.clone(), "a/b".to_string(), "a".to_string(), "b".to_string());
    let (back, _) = without_tracked_repo(added, &"a/b".to_string());
    assert_eq!(names(&back), names(&start));
}
