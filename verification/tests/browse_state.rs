use commit_browser::models::CommitInfo;
use commit_browser::ui::{initial_branch, Action, App, Key, ViewMode};
use std::collections::VecDeque;

fn commit(hash: &str) -> CommitInfo {
    CommitInfo {
        hash: hash.to_string(),
        message: format!("message of {}", hash),
        author: "A <a@example.org>".to_string(),
        date: "2024-01-02 03:04:05".to_string(),
        diff: None,
    }
}

fn commits(n: usize) -> VecDeque<CommitInfo> {
    (0..n).map(|i| commit(&format!("c{}", i))).collect()
}

fn app_with(n: usize, branches: &[&str], current: &str) -> App {
    let mut app = App::new();
    app.commits = commits(n);
    app.branches = branches.iter().map(|b| b.to_string()).collect();
    app.current_branch = current.to_string();
    app
}

#[test]
fn new_app_shows_the_commit_list() {
    let app = App::new();
    assert_eq!(app.view_mode, ViewMode::CommitList);
    assert_eq!(app.selected_index, 0);
    assert_eq!(app.branch_selector_index, 0);
    assert_eq!(app.current_branch, "main");
    assert!(app.commits.is_empty());
    assert!(app.branches.is_empty());
    assert!(!app.search_mode);
    assert_eq!(app.search_query, "");
    assert_eq!(app.author_filter, None);
}

#[test]
fn move_selection_is_clamped() {
    let mut app = app_with(5, &[], "main");
    app.move_selection(2);
    assert_eq!(app.selected_index, 2);
    app.move_selection(-1);
    assert_eq!(app.selected_index, 1);
    app.move_selection(100);
    assert_eq!(app.selected_index, 4);
    app.move_selection(1);
    assert_eq!(app.selected_index, 4);
    app.move_selection(-3);
    assert_eq!(app.selected_index, 1);
    app.move_selection(-100);
    assert_eq!(app.selected_index, 0);
    app.move_selection(0);
    assert_eq!(app.selected_index, 0);
}

#[test]
fn move_selection_stays_in_range_for_every_delta() {
    let deltas = [i32::MIN, i32::MIN + 1, -1000, -5, -1, 0, 1, 4, 5, 1000, i32::MAX - 1, i32::MAX];
    for n in 1..6usize {
        for start in 0..n {
            for delta in deltas {
                let mut app = app_with(n, &[], "main");
                app.selected_index = start;
                app.move_selection(delta);
                assert!(app.selected_index < n);
                let want = (start as i64 + delta as i64).clamp(0, n as i64 - 1);
                assert_eq!(app.selected_index as i64, want);
            }
        }
    }
}

#[test]
fn move_selection_brings_a_stray_cursor_back() {
    let mut app = app_with(3, &[], "main");
    app.selected_index = 10;
    app.move_selection(0);
    assert_eq!(app.selected_index, 2);
    app.selected_index = usize::MAX;
    app.move_selection(i32::MAX);
    assert_eq!(app.selected_index, 2);
    app.selected_index = 10;
    app.move_selection(-9);
    assert_eq!(app.selected_index, 1);
}

#[test]
fn move_selection_does_nothing_without_commits() {
    let mut app = App::new();
    for delta in [-1, 0, 1, i32::MAX, i32::MIN] {
        app.move_selection(delta);
        assert_eq!(app.selected_index, 0);
        assert!(app.commits.is_empty());
    }
    app.navigate_up();
    app.navigate_down();
    assert_eq!(app.selected_index, 0);
}

#[test]
fn navigate_up_and_down_move_by_one() {
    let mut app = app_with(3, &[], "main");
    app.navigate_up();
    assert_eq!(app.selected_index, 0);
    app.navigate_down();
    assert_eq!(app.selected_index, 1);
    app.navigate_down();
    app.navigate_down();
    assert_eq!(app.selected_index, 2);
    app.navigate_up();
    assert_eq!(app.selected_index, 1);
}

#[test]
fn navigate_left_and_right_change_nothing() {
    let mut app = app_with(3, &["a", "b"], "b");
    app.selected_index = 1;
    app.navigate_left();
    app.navigate_right();
    assert_eq!(app.selected_index, 1);
    assert_eq!(app.branch_selector_index, 0);
    assert_eq!(app.view_mode, ViewMode::CommitList);
}

#[test]
fn navigate_branch_selector_is_clamped() {
    let mut app = app_with(0, &["a", "b", "c"], "a");
    app.navigate_branch_selector(1);
    assert_eq!(app.branch_selector_index, 1);
    app.navigate_branch_selector(5);
    assert_eq!(app.branch_selector_index, 2);
    app.navigate_branch_selector(-1);
    assert_eq!(app.branch_selector_index, 1);
    app.navigate_branch_selector(-7);
    assert_eq!(app.branch_selector_index, 0);
    assert_eq!(app.selected_index, 0);

    let mut empty = App::new();
    empty.navigate_branch_selector(1);
    assert_eq!(empty.branch_selector_index, 0);
}

#[test]
fn enter_branch_selector_points_at_the_current_branch() {
    let mut app = app_with(2, &["dev", "main", "topic", "main"], "main");
    app.branch_selector_index = 3;
    app.enter_branch_selector();
    assert_eq!(app.view_mode, ViewMode::BranchSelector);
    assert_eq!(app.branch_selector_index, 1);

    let mut first = app_with(2, &["dev", "main"], "dev");
    first.branch_selector_index = 1;
    first.enter_branch_selector();
    assert_eq!(first.branch_selector_index, 0);
}

#[test]
fn enter_branch_selector_falls_back_to_the_first_branch() {
    let mut app = app_with(2, &["dev", "topic"], "deleted");
    app.branch_selector_index = 1;
    app.enter_branch_selector();
    assert_eq!(app.view_mode, ViewMode::BranchSelector);
    assert_eq!(app.branch_selector_index, 0);

    let mut none = app_with(2, &[], "main");
    none.branch_selector_index = 4;
    none.enter_branch_selector();
    assert_eq!(none.branch_selector_index, 0);
}

#[test]
fn reentering_the_selector_resets_its_cursor() {
    let mut app = app_with(2, &["dev", "main", "topic"], "main");
    app.enter_branch_selector();
    app.navigate_branch_selector(1);
    assert_eq!(app.branch_selector_index, 2);
    app.cancel_overlay();
    assert_eq!(app.branch_selector_index, 2);
    app.toggle_author_filter();
    assert_eq!(app.branch_selector_index, 2);
    app.enter_branch_selector();
    assert_eq!(app.branch_selector_index, 1);
}

#[test]
fn toggles_switch_between_overlay_and_list() {
    let mut app = app_with(2, &["main"], "main");
    app.toggle_author_filter();
    assert_eq!(app.view_mode, ViewMode::AuthorFilter);
    app.toggle_author_filter();
    assert_eq!(app.view_mode, ViewMode::CommitList);
    app.toggle_branch_selector();
    assert_eq!(app.view_mode, ViewMode::BranchSelector);
    app.toggle_branch_selector();
    assert_eq!(app.view_mode, ViewMode::CommitList);
    app.toggle_branch_selector();
    app.toggle_author_filter();
    assert_eq!(app.view_mode, ViewMode::AuthorFilter);
    app.toggle_branch_selector();
    assert_eq!(app.view_mode, ViewMode::BranchSelector);
}

#[test]
fn cancel_overlay_returns_to_the_list() {
    for mode in [ViewMode::CommitList, ViewMode::BranchSelector, ViewMode::AuthorFilter] {
        let mut app = app_with(3, &["a", "b"], "b");
        app.view_mode = mode;
        app.selected_index = 2;
        app.branch_selector_index = 1;
        app.cancel_overlay();
        assert_eq!(app.view_mode, ViewMode::CommitList);
        assert_eq!(app.selected_index, 2);
        assert_eq!(app.branch_selector_index, 1);
    }
}

#[test]
fn start_search_keeps_the_view_mode() {
    for mode in [ViewMode::CommitList, ViewMode::BranchSelector, ViewMode::AuthorFilter] {
        let mut app = App::new();
        app.view_mode = mode;
        app.start_search();
        assert!(app.search_mode);
        assert_eq!(app.view_mode, mode);
    }
}

#[test]
fn select_branch_needs_an_index_in_range() {
    let mut app = app_with(1, &["dev", "main"], "main");
    assert!(app.select_branch(0));
    assert_eq!(app.current_branch, "dev");
    assert_eq!(app.branch_selector_index, 0);
    assert!(!app.select_branch(2));
    assert_eq!(app.current_branch, "dev");
    assert_eq!(app.branch_selector_index, 0);
    assert!(app.select_branch(1));
    assert_eq!(app.current_branch, "main");
    assert_eq!(app.branch_selector_index, 1);
}

#[test]
fn confirm_switches_branch_once_commits_are_there() {
    let mut app = app_with(4, &["dev", "main"], "main");
    app.selected_index = 3;
    app.enter_branch_selector();
    app.navigate_branch_selector(-1);
    assert_eq!(app.branch_to_confirm(), Some(&"dev".to_string()));
    assert!(app.confirm_branch_selection(Some(commits(2))));
    assert_eq!(app.current_branch, "dev");
    assert_eq!(app.commits, commits(2));
    assert_eq!(app.selected_index, 0);
    assert_eq!(app.view_mode, ViewMode::CommitList);
    assert_eq!(app.branch_to_confirm(), None);
}

#[test]
fn failed_fetch_leaves_the_state_alone() {
    let mut app = app_with(4, &["dev", "main"], "main");
    app.selected_index = 3;
    app.enter_branch_selector();
    app.navigate_branch_selector(-1);
    assert!(!app.confirm_branch_selection(None));
    assert_eq!(app.current_branch, "main");
    assert_eq!(app.commits, commits(4));
    assert_eq!(app.selected_index, 3);
    assert_eq!(app.view_mode, ViewMode::BranchSelector);
    assert_eq!(app.branch_selector_index, 0);
}

#[test]
fn confirm_outside_the_selector_does_nothing() {
    for mode in [ViewMode::CommitList, ViewMode::AuthorFilter] {
        let mut app = app_with(4, &["dev", "main"], "main");
        app.view_mode = mode;
        app.selected_index = 2;
        assert_eq!(app.branch_to_confirm(), None);
        assert!(!app.confirm_branch_selection(Some(commits(1))));
        assert_eq!(app.current_branch, "main");
        assert_eq!(app.commits.len(), 4);
        assert_eq!(app.selected_index, 2);
        assert_eq!(app.view_mode, mode);
    }
    let mut stray = app_with(4, &["dev"], "dev");
    stray.view_mode = ViewMode::BranchSelector;
    stray.branch_selector_index = 1;
    assert!(!stray.confirm_branch_selection(Some(commits(1))));
    assert_eq!(stray.commits.len(), 4);
    assert_eq!(stray.view_mode, ViewMode::BranchSelector);
}

#[test]
fn keys_are_routed_by_view_mode() {
    let mut app = app_with(3, &["dev", "main", "topic"], "main");
    assert_eq!(app.handle_key(Key::Down), Action::Continue);
    assert_eq!((app.selected_index, app.branch_selector_index), (1, 0));
    assert_eq!(app.handle_key(Key::ToggleBranchSelector), Action::Continue);
    assert_eq!(app.view_mode, ViewMode::BranchSelector);
    assert_eq!(app.branch_selector_index, 1);
    assert_eq!(app.handle_key(Key::Down), Action::Continue);
    assert_eq!((app.selected_index, app.branch_selector_index), (1, 2));
    assert_eq!(app.handle_key(Key::Up), Action::Continue);
    assert_eq!(app.handle_key(Key::Up), Action::Continue);
    assert_eq!(app.handle_key(Key::Up), Action::Continue);
    assert_eq!((app.selected_index, app.branch_selector_index), (1, 0));
    assert_eq!(app.handle_key(Key::Confirm), Action::FetchCommits("dev".to_string()));
    assert_eq!(app.view_mode, ViewMode::BranchSelector);
    assert_eq!(app.current_branch, "main");
    assert_eq!(app.handle_key(Key::Cancel), Action::Continue);
    assert_eq!(app.view_mode, ViewMode::CommitList);
    assert_eq!(app.handle_key(Key::Confirm), Action::Continue);
    assert_eq!(app.handle_key(Key::ToggleAuthorFilter), Action::Continue);
    assert_eq!(app.view_mode, ViewMode::AuthorFilter);
    assert_eq!(app.handle_key(Key::Up), Action::Continue);
    assert_eq!((app.selected_index, app.branch_selector_index), (0, 0));
    assert_eq!(app.handle_key(Key::Left), Action::Continue);
    assert_eq!(app.handle_key(Key::Right), Action::Continue);
    assert_eq!(app.handle_key(Key::StartSearch), Action::Continue);
    assert!(app.search_mode);
    assert_eq!(app.view_mode, ViewMode::AuthorFilter);
    assert_eq!(app.handle_key(Key::Quit), Action::Quit);
    assert_eq!(app.view_mode, ViewMode::AuthorFilter);
}

#[test]
fn initial_branch_prefers_the_first_branch() {
    let branches = vec!["dev".to_string(), "main".to_string()];
    assert_eq!(initial_branch(&branches, true, true), Some("dev".to_string()));
    let none: Vec<String> = Vec::new();
    assert_eq!(initial_branch(&none, true, true), Some("main".to_string()));
    assert_eq!(initial_branch(&none, true, false), Some("main".to_string()));
    assert_eq!(initial_branch(&none, false, true), Some("master".to_string()));
    assert_eq!(initial_branch(&none, false, false), None);
}
