use commit_browser::cache::Cache;
use commit_browser::models::CommitInfo;

fn commit(hash: &str) -> CommitInfo {
    CommitInfo {
        hash: hash.to_string(),
        message: "m".to_string(),
        author: "A <a@example.org>".to_string(),
        date: "2024-01-02 03:04:05".to_string(),
        diff: Some("diff --git a/f b/f".to_string()),
    }
}

fn names(list: &[&str]) -> Vec<String> {
    list.iter().map(|s| s.to_string()).collect()
}

#[test]
fn set_then_get_within_the_duration() {
    let mut cache = Cache::new();
    let stored = vec![commit("c1"), commit("c2")];
    cache.set_commits_at("main".to_string(), stored.clone(), 1000);
    assert_eq!(cache.get_commits_at("main", 1000), Some(&stored));
    assert_eq!(cache.get_commits_at("main", 1001), Some(&stored));
    assert_eq!(cache.get_commits_at("main", 1299), Some(&stored));
}

#[test]
fn get_after_the_duration_is_a_miss() {
    let mut cache = Cache::new();
    cache.set_commits_at("main".to_string(), vec![commit("c1")], 1000);
    assert_eq!(cache.get_commits_at("main", 1300), None);
    assert_eq!(cache.get_commits_at("main", 1301), None);
    assert_eq!(cache.get_commits_at("main", u64::MAX), None);
}

#[test]
fn expired_entry_stays_until_overwritten() {
    let mut cache = Cache::new();
    let stored = vec![commit("c1")];
    cache.set_commits_at("main".to_string(), stored.clone(), 1000);
    assert_eq!(cache.get_commits_at("main", 5000), None);
    assert_eq!(cache.get_commits_at("main", 1100), Some(&stored));
    cache.set_cache_duration(10_000);
    assert_eq!(cache.get_commits_at("main", 5000), Some(&stored));
}

#[test]
fn clock_before_the_timestamp_is_a_miss() {
    let mut cache = Cache::new();
    cache.set_commits_at("main".to_string(), vec![commit("c1")], 1000);
    assert_eq!(cache.get_commits_at("main", 999), None);
    assert_eq!(cache.get_commits_at("main", 0), None);
}

#[test]
fn unknown_key_is_a_miss() {
    let mut cache = Cache::new();
    assert_eq!(cache.get_commits_at("main", 0), None);
    cache.set_commits_at("main".to_string(), vec![commit("c1")], 0);
    assert_eq!(cache.get_commits_at("mai", 0), None);
    assert_eq!(cache.get_commits_at("main ", 0), None);
    assert_eq!(cache.get_commits_at("", 0), None);
}

#[test]
fn set_overwrites_with_a_fresh_timestamp() {
    let mut cache = Cache::new();
    let first = vec![commit("c1")];
    let second = vec![commit("c2"), commit("c3")];
    cache.set_commits_at("main".to_string(), first.clone(), 1000);
    cache.set_commits_at("dev".to_string(), first.clone(), 1000);
    cache.set_commits_at("main".to_string(), second.clone(), 1200);
    assert_eq!(cache.get_commits_at("main", 1250), Some(&second));
    assert_eq!(cache.get_commits_at("main", 1499), Some(&second));
    assert_eq!(cache.get_commits_at("main", 1500), None);
    assert_eq!(cache.get_commits_at("dev", 1250), Some(&first));
    assert_eq!(cache.get_commits_at("dev", 1300), None);
}

#[test]
fn keyspaces_are_independent() {
    let mut cache = Cache::new();
    let authors = names(&["A <a@example.org>"]);
    let branches = names(&["main", "dev"]);
    cache.set_authors_at("/repo".to_string(), authors.clone(), 10);
    assert_eq!(cache.get_authors_at("/repo", 20), Some(&authors));
    assert_eq!(cache.get_branches_at("/repo", 20), None);
    assert_eq!(cache.get_commits_at("/repo", 20), None);
    cache.set_branches_at("/repo".to_string(), branches.clone(), 200);
    assert_eq!(cache.get_branches_at("/repo", 320), Some(&branches));
    assert_eq!(cache.get_authors_at("/repo", 320), None);
    cache.set_commits_at("/repo".to_string(), vec![commit("c")], 300);
    assert_eq!(cache.get_authors_at("/repo", 20), Some(&authors));
    assert_eq!(cache.get_branches_at("/repo", 320), Some(&branches));
    assert_eq!(cache.get_branches_at("/repo", 500), None);
    assert_eq!(cache.get_authors_at("/other", 20), None);
}

#[test]
fn clear_empties_every_keyspace() {
    let mut cache = Cache::new();
    cache.set_commits_at("main".to_string(), vec![commit("c1")], 10);
    cache.set_authors_at("/repo".to_string(), names(&["A"]), 10);
    cache.set_branches_at("/repo".to_string(), names(&["main"]), 10);
    cache.set_cache_duration(50);
    cache.clear();
    for now in [0, 10, 11, 59, 60, u64::MAX] {
        assert_eq!(cache.get_commits_at("main", now), None);
        assert_eq!(cache.get_authors_at("/repo", now), None);
        assert_eq!(cache.get_branches_at("/repo", now), None);
    }
    cache.set_commits_at("main".to_string(), vec![commit("c2")], 100);
    assert_eq!(cache.get_commits_at("main", 149).map(|c| c.len()), Some(1));
    assert_eq!(cache.get_commits_at("main", 150), None);
}

#[test]
fn duration_is_shared_and_configurable() {
    let mut cache = Cache::new();
    cache.set_commits_at("main".to_string(), vec![commit("c1")], 100);
    cache.set_authors_at("/repo".to_string(), names(&["A"]), 100);
    cache.set_branches_at("/repo".to_string(), names(&["main"]), 100);
    cache.set_cache_duration(5);
    assert!(cache.get_commits_at("main", 104).is_some());
    assert!(cache.get_authors_at("/repo", 104).is_some());
    assert!(cache.get_branches_at("/repo", 104).is_some());
    assert!(cache.get_commits_at("main", 105).is_none());
    assert!(cache.get_authors_at("/repo", 105).is_none());
    assert!(cache.get_branches_at("/repo", 105).is_none());
    cache.set_cache_duration(0);
    assert!(cache.get_commits_at("main", 100).is_none());
    cache.set_cache_duration(u64::MAX);
    assert!(cache.get_commits_at("main", u64::MAX).is_some());
}

#[test]
fn system_clock_serves_what_was_just_stored() {
    let mut cache = Cache::new();
    let stored = vec![commit("c1")];
    cache.set_commits("main".to_string(), stored.clone());
    cache.set_authors("/repo".to_string(), names(&["A"]));
    cache.set_branches("/repo".to_string(), names(&["main", "dev"]));
    assert_eq!(cache.get_commits("main"), Some(&stored));
    assert_eq!(cache.get_authors("/repo"), Some(&names(&["A"])));
    assert_eq!(cache.get_branches("/repo"), Some(&names(&["main", "dev"])));
    assert_eq!(cache.get_commits("dev"), None);
    cache.clear();
    assert_eq!(cache.get_commits("main"), None);
    assert_eq!(cache.get_authors("/repo"), None);
    assert_eq!(cache.get_branches("/repo"), None);
}

#[test]
fn system_clock_is_past_the_epoch() {
    let mut cache = Cache::new();
    cache.set_commits_at("old".to_string(), vec![commit("c1")], 0);
    assert_eq!(cache.get_commits("old"), None);
    cache.set_cache_duration(0);
    cache.set_commits("main".to_string(), vec![commit("c1")]);
    assert_eq!(cache.get_commits("main"), None);
}
