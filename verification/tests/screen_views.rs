use commit_browser::diff::{FileChange, FileKind};
use commit_browser::models::CommitInfo;
use commit_browser::screen::{
    author_filter_pane, branch_selector_pane, commit_details, commit_details_pane, commit_list_pane,
    push_change_row, screen, ListPane, Pane, Row, RowStyle, Screen, TextPane,
};
use commit_browser::ui::{App, ViewMode};

fn commit(hash: &str, diff: Option<&str>) -> CommitInfo {
    CommitInfo::assemble(
        hash.to_string(),
        Some(format!("message {}", hash)),
        Some("Ada"),
        Some("ada@example.org"),
        "2024-01-02 03:04:05".to_string(),
        diff.map(|d| d.to_string()),
    )
}

fn row(change: &FileChange) -> String {
    let mut out = String::new();
    push_change_row(&mut out, change);
    out
}

#[test]
fn assemble_formats_the_author() {
    let c = commit("abc", None);
    assert_eq!(c.hash, "abc");
    assert_eq!(c.message, "message abc");
    assert_eq!(c.author, "Ada <ada@example.org>");
    assert_eq!(c.date, "2024-01-02 03:04:05");
    assert_eq!(c.diff, None);
    let anonymous = CommitInfo::assemble("h".to_string(), None, None, None, "d".to_string(), Some("x".to_string()));
    assert_eq!(anonymous.author, "Unknown <unknown@email.com>");
    assert_eq!(anonymous.message, "");
    assert_eq!(anonymous.diff, Some("x".to_string()));
    let half = CommitInfo::assemble("h".to_string(), None, Some("Bo"), None, "d".to_string(), None);
    assert_eq!(half.author, "Bo <unknown@email.com>");
    let other = CommitInfo::assemble("h".to_string(), None, None, Some("bo@example.org"), "d".to_string(), None);
    assert_eq!(other.author, "Unknown <bo@example.org>");
}

#[test]
fn change_rows_name_status_path_and_counts() {
    let mut change = FileChange {
        new_path: "src/lib.rs".to_string(),
        old_path: None,
        insertions: 12,
        deletions: 0,
        kind: FileKind::Modified,
    };
    assert_eq!(row(&change), "modified src/lib.rs (+12, -0)");
    change.kind = FileKind::Unchanged;
    change.insertions = 0;
    assert_eq!(row(&change), "unchanged src/lib.rs (+0, -0)");
    change.kind = FileKind::Added;
    change.insertions = 3;
    assert_eq!(row(&change), "added src/lib.rs (+3, -0)");
    change.kind = FileKind::Deleted;
    change.insertions = 0;
    change.deletions = 105;
    assert_eq!(row(&change), "deleted src/lib.rs (+0, -105)");
    change.kind = FileKind::Renamed;
    change.old_path = Some("src/old.rs".to_string());
    change.deletions = 0;
    assert_eq!(row(&change), "renamed src/old.rs → src/lib.rs (+0, -0)");
    change.kind = FileKind::RenamedModified;
    change.insertions = 1;
    change.deletions = 2;
    assert_eq!(row(&change), "renamed+mod src/old.rs → src/lib.rs (+1, -2)");
    change.old_path = None;
    assert_eq!(row(&change), "renamed+mod  → src/lib.rs (+1, -2)");
}

#[test]
fn push_change_row_appends() {
    let change = FileChange {
        new_path: "f".to_string(),
        old_path: None,
        insertions: 1,
        deletions: 1,
        kind: FileKind::Modified,
    };
    let mut out = String::from("> ");
    push_change_row(&mut out, &change);
    assert_eq!(out, "> modified f (+1, -1)");
}

#[test]
fn details_list_the_changed_files() {
    let diff = "diff --git a/f b/f\n@@ -1,1 +1,2 @@\n-old\n+new1\n+new2\ndiff --git a/a b/b\nsimilarity index 100%\nrename from a\nrename to b\n";
    let text = commit_details(&commit("abc123", Some(diff)));
    assert_eq!(
        text,
        "Hash: abc123\nAuthor: Ada <ada@example.org>\nDate: 2024-01-02 03:04:05\n\nMessage:\nmessage abc123\n\nChanged Files:\nmodified f (+2, -1)\nrenamed a → b (+0, -0)"
    );
}

#[test]
fn details_tell_a_missing_diff_from_an_empty_one() {
    let head = "Hash: h\nAuthor: Ada <ada@example.org>\nDate: 2024-01-02 03:04:05\n\nMessage:\nmessage h\n\nChanged Files:\n";
    assert_eq!(commit_details(&commit("h", None)), format!("{}No diff available", head));
    assert_eq!(commit_details(&commit("h", Some(""))), format!("{}No files changed", head));
    assert_eq!(commit_details(&commit("h", Some("no header here\n+x"))), format!("{}No files changed", head));
}

#[test]
fn empty_commit_list_says_so() {
    let app = App::new();
    assert_eq!(
        commit_list_pane(&app),
        Pane::Text(TextPane {
            title: "Commits".to_string(),
            body: "No commits found in the repository.".to_string(),
        })
    );
    assert_eq!(
        commit_details_pane(&app),
        TextPane { title: "Details".to_string(), body: "No commit selected.".to_string() }
    );
    let mut stray = App::new();
    stray.selected_index = 7;
    assert!(matches!(commit_list_pane(&stray), Pane::Text(_)));
    assert_eq!(commit_details_pane(&stray).body, "No commit selected.");
}

#[test]
fn commit_list_marks_the_cursor() {
    let mut app = App::new();
    app.current_branch = "topic".to_string();
    app.commits.push_back(commit("c0", None));
    app.commits.push_back(commit("c1", None));
    app.commits.push_back(commit("c2", None));
    app.selected_index = 1;
    let want = |cursor: Option<usize>| {
        Pane::List(ListPane {
            title: "Commits (topic)".to_string(),
            rows: (0..3)
                .map(|i| Row {
                    text: format!("c{} message c{}", i, i),
                    style: if Some(i) == cursor { RowStyle::Cursor } else { RowStyle::Plain },
                })
                .collect(),
        })
    };
    assert_eq!(commit_list_pane(&app), want(Some(1)));
    app.selected_index = 3;
    assert_eq!(commit_list_pane(&app), want(None));
    assert_eq!(commit_details_pane(&app).body, "No commit selected");
    app.selected_index = 2;
    assert_eq!(commit_details_pane(&app).body, commit_details(&commit("c2", None)));
    assert_eq!(commit_details_pane(&app).title, "Details");
}

#[test]
fn branch_selector_marks_cursor_and_current_branch() {
    let mut app = App::new();
    app.branches = vec!["dev".to_string(), "main".to_string(), "origin/main".to_string(), "main".to_string()];
    app.current_branch = "main".to_string();
    app.branch_selector_index = 3;
    let pane = branch_selector_pane(&app);
    assert_eq!(pane.title, "Select Branch (↑/↓ to navigate, Enter to select, Esc to cancel)");
    assert_eq!(
        pane.rows,
        vec![
            Row { text: "🌿 dev".to_string(), style: RowStyle::Plain },
            Row { text: "🌿 main".to_string(), style: RowStyle::Current },
            Row { text: "🌐 origin/main".to_string(), style: RowStyle::Plain },
            Row { text: "🌿 main".to_string(), style: RowStyle::Cursor },
        ]
    );
    app.branches.clear();
    assert_eq!(branch_selector_pane(&app).rows, Vec::<Row>::new());
}

#[test]
fn author_filter_is_a_placeholder() {
    assert_eq!(
        author_filter_pane(),
        TextPane {
            title: "Author Filter".to_string(),
            body: "Author filter (not implemented yet)".to_string(),
        }
    );
}

#[test]
fn screen_follows_the_view_mode() {
    let mut app = App::new();
    app.branches = vec!["main".to_string()];
    app.commits.push_back(commit("c0", None));
    assert_eq!(
        screen(&app),
        Screen::Commits { list: commit_list_pane(&app), details: commit_details_pane(&app) }
    );
    app.view_mode = ViewMode::BranchSelector;
    assert_eq!(screen(&app), Screen::BranchSelector(branch_selector_pane(&app)));
    app.view_mode = ViewMode::AuthorFilter;
    assert_eq!(screen(&app), Screen::AuthorFilter(author_filter_pane()));
}
