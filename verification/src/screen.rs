//! What the browser shows, as plain values: titles, rows and texts that a
//! terminal front end paints as they are.

use crate::diff::{change_views, summarize, summary, FileChange, FileChangeView, FileKind};
use crate::models::CommitInfo;
use crate::text::{contains_char, decimal, push_decimal};
use crate::ui::{App, ViewMode};
use vstd::prelude::*;
use vstd::string::StringExecFns;

verus! {

/// How a row of a list is set off.
#[derive(Clone, Copy, Debug, PartialEq, Eq, Structural)]
pub enum RowStyle {
    Plain,
    /// The row under the cursor.
    Cursor,
    /// The row of the current branch, where the cursor is elsewhere.
    Current,
}

/// One row of a list.
#[derive(Debug, Clone, PartialEq, Eq)]
pub struct Row {
    pub text: String,
    pub style: RowStyle,
}

/// A titled list of rows.
#[derive(Debug, Clone, PartialEq, Eq)]
pub struct ListPane {
    pub title: String,
    pub rows: Vec<Row>,
}

/// A titled text.
#[derive(Debug, Clone, PartialEq, Eq)]
pub struct TextPane {
    pub title: String,
    pub body: String,
}

/// A pane that is a list, or a text where there is nothing to list.
#[derive(Debug, PartialEq, Eq)]
pub enum Pane {
    Text(TextPane),
    List(ListPane),
}

/// The whole screen. An overlay takes the place of the two panes.
#[derive(Debug, PartialEq, Eq)]
pub enum Screen {
    BranchSelector(ListPane),
    AuthorFilter(TextPane),
    Commits { list: Pane, details: TextPane },
}

/// The text of a branch's row: a mark for a branch with a slash in its name
/// or for one without, and the name.
pub open spec fn branch_label(branch: Seq<char>) -> Seq<char> {
    (if branch.contains('/') {
        "🌐 "@
    } else {
        "🌿 "@
    }) + branch
}

/// The style of the row of the branch at `i`.
pub open spec fn branch_style(app: App, i: int) -> RowStyle {
    if i == app.branch_selector_index {
        RowStyle::Cursor
    } else if app.branches@[i]@ == app.current_branch@ {
        RowStyle::Current
    } else {
        RowStyle::Plain
    }
}

/// Whether `pane` is the branch selector of `app`: one row for each branch,
/// in order.
pub open spec fn shows_branches(pane: ListPane, app: App) -> bool {
    &&& pane.title@ == "Select Branch (↑/↓ to navigate, Enter to select, Esc to cancel)"@
    &&& pane.rows@.len() == app.branches@.len()
    &&& forall|i: int|
        0 <= i < pane.rows@.len() ==> (#[trigger] pane.rows@[i]).text@ == branch_label(
            app.branches@[i]@,
        ) && pane.rows@[i].style == branch_style(app, i)
}

/// Whether `pane` is the placeholder of the author filter.
pub open spec fn shows_author_filter(pane: TextPane) -> bool {
    &&& pane.title@ == "Author Filter"@
    &&& pane.body@ == "Author filter (not implemented yet)"@
}

/// The text of a commit's row: hash, a space, message.
pub open spec fn commit_label(commit: CommitInfo) -> Seq<char> {
    commit.hash@ + " "@ + commit.message@
}

/// The style of the row of the commit at `i`.
pub open spec fn commit_style(app: App, i: int) -> RowStyle {
    if i == app.selected_index {
        RowStyle::Cursor
    } else {
        RowStyle::Plain
    }
}

/// Whether `pane` is the commit list of `app`: without commits a text that
/// says so, else one row for each commit, in order, under a title that names
/// the current branch.
pub open spec fn shows_commits(pane: Pane, app: App) -> bool {
    match pane {
        Pane::Text(text) => {
            &&& app.commits@.len() == 0
            &&& text.title@ == "Commits"@
            &&& text.body@ == "No commits found in the repository."@
        },
        Pane::List(list) => {
            &&& app.commits@.len() > 0
            &&& list.title@ == "Commits ("@ + app.current_branch@ + ")"@
            &&& list.rows@.len() == app.commits@.len()
            &&& forall|i: int|
                0 <= i < list.rows@.len() ==> (#[trigger] list.rows@[i]).text@ == commit_label(
                    app.commits@[i],
                ) && list.rows@[i].style == commit_style(app, i)
        },
    }
}

/// The previous path of a record, or nothing where it has none.
pub open spec fn previous_path(change: FileChangeView) -> Seq<char> {
    match change.old_path {
        Some(path) => path,
        None => Seq::empty(),
    }
}

/// The status column of a record's row. A rename shows the previous path
/// and an arrow.
pub open spec fn status_text(change: FileChangeView) -> Seq<char> {
    match change.kind {
        FileKind::Added => "added"@,
        FileKind::Deleted => "deleted"@,
        FileKind::Modified => "modified"@,
        FileKind::Renamed => "renamed "@ + previous_path(change) + " →"@,
        FileKind::RenamedModified => "renamed+mod "@ + previous_path(change) + " →"@,
        FileKind::Unchanged => "unchanged"@,
    }
}

/// The row of a record: status, path, and the counts as `(+N, -M)`.
pub open spec fn change_row(change: FileChangeView) -> Seq<char> {
    status_text(change) + " "@ + change.new_path + " (+"@ + decimal(change.insertions) + ", -"@
        + decimal(change.deletions) + ")"@
}

/// The rows of the records, each on a line of its own.
pub open spec fn change_rows(changes: Seq<FileChangeView>) -> Seq<char>
    decreases changes.len(),
{
    if changes.len() == 0 {
        Seq::empty()
    } else {
        change_rows(changes.drop_last()) + "\n"@ + change_row(changes.last())
    }
}

/// What stands under `Changed Files:` for a commit: its records; a line
/// that says so where its diff names no file, and another where it has no
/// diff.
pub open spec fn changed_files(commit: CommitInfo) -> Seq<char> {
    match commit.diff {
        Some(diff) => if summary(diff@).len() == 0 {
            "\nNo files changed"@
        } else {
            change_rows(summary(diff@))
        },
        None => "\nNo diff available"@,
    }
}

/// The details of a commit: hash, author, date, message and changed files.
pub open spec fn details_text(commit: CommitInfo) -> Seq<char> {
    "Hash: "@ + commit.hash@ + "\nAuthor: "@ + commit.author@ + "\nDate: "@ + commit.date@
        + "\n\nMessage:\n"@ + commit.message@ + "\n\nChanged Files:"@ + changed_files(commit)
}

/// Whether `pane` shows the details of the selected commit of `app`, or
/// says that none is selected.
pub open spec fn shows_details(pane: TextPane, app: App) -> bool {
    &&& pane.title@ == "Details"@
    &&& pane.body@ == if app.commits@.len() == 0 {
        "No commit selected."@
    } else if app.selected_index < app.commits@.len() {
        details_text(app.commits@[app.selected_index as int])
    } else {
        "No commit selected"@
    }
}

/// Whether `screen` is what `app` shows: the overlay of its mode, or the
/// commit list beside the details.
pub open spec fn shows(screen: Screen, app: App) -> bool {
    match screen {
        Screen::BranchSelector(pane) => app.view_mode == ViewMode::BranchSelector
            && shows_branches(pane, app),
        Screen::AuthorFilter(pane) => app.view_mode == ViewMode::AuthorFilter
            && shows_author_filter(pane),
        Screen::Commits { list, details } => app.view_mode == ViewMode::CommitList
            && shows_commits(list, app) && shows_details(details, app),
    }
}

/// Appends the row of `change` to `out`.
pub fn push_change_row(out: &mut String, change: &FileChange)
    ensures
        final(out)@ == old(out)@ + change_row(change@),
{
    match change.kind {
        FileKind::Added => out.append("added"),
        FileKind::Deleted => out.append("deleted"),
        FileKind::Modified => out.append("modified"),
        FileKind::Unchanged => out.append("unchanged"),
        FileKind::Renamed => {
            out.append("renamed ");
            match &change.old_path {
                Some(path) => out.append(path.as_str()),
                None => {},
            }
            out.append(" →");
        },
        FileKind::RenamedModified => {
            out.append("renamed+mod ");
            match &change.old_path {
                Some(path) => out.append(path.as_str()),
                None => {},
            }
            out.append(" →");
        },
    }
    out.append(" ");
    out.append(change.new_path.as_str());
    out.append(" (+");
    push_decimal(out, change.insertions);
    out.append(", -");
    push_decimal(out, change.deletions);
    out.append(")");
}

/// The details of `commit` as a text.
pub fn commit_details(commit: &CommitInfo) -> (text: String)
    ensures
        text@ == details_text(*commit),
{
    let mut out = String::new();
    out.append("Hash: ");
    out.append(commit.hash.as_str());
    out.append("\nAuthor: ");
    out.append(commit.author.as_str());
    out.append("\nDate: ");
    out.append(commit.date.as_str());
    out.append("\n\nMessage:\n");
    out.append(commit.message.as_str());
    out.append("\n\nChanged Files:");
    let ghost head = out@;
    match &commit.diff {
        Some(diff) => {
            let changes = summarize(diff.as_str());
            if changes.len() == 0 {
                out.append("\nNo files changed");
            } else {
                let ghost views = change_views(changes@);
                let mut i: usize = 0;
                while i < changes.len()
                    invariant
                        i <= changes@.len(),
                        views == change_views(changes@),
                        out@ == head + change_rows(views.take(i as int)),
                    decreases changes.len() - i,
                {
                    out.append("\n");
                    push_change_row(&mut out, &changes[i]);
                    proof {
                        let next = views.take(i + 1);
                        assert(next.drop_last() =~= views.take(i as int));
                    }
                    i = i + 1;
                }
                assert(views.take(i as int) =~= views);
            }
        },
        None => {
            out.append("\nNo diff available");
        },
    }
    out
}

/// The overlay in which a branch is picked.
pub fn branch_selector_pane(app: &App) -> (pane: ListPane)
    ensures
        shows_branches(pane, *app),
{
    let mut rows: Vec<Row> = Vec::new();
    let mut i: usize = 0;
    while i < app.branches.len()
        invariant
            i <= app.branches@.len(),
            rows@.len() == i,
            forall|j: int|
                0 <= j < i ==> (#[trigger] rows@[j]).text@ == branch_label(app.branches@[j]@)
                    && rows@[j].style == branch_style(*app, j),
        decreases app.branches.len() - i,
    {
        let branch = &app.branches[i];
        let style = if i == app.branch_selector_index {
            RowStyle::Cursor
        } else if *branch == app.current_branch {
            RowStyle::Current
        } else {
            RowStyle::Plain
        };
        let mut text = String::new();
        if contains_char(branch.as_str(), '/') {
            text.append("🌐 ");
        } else {
            text.append("🌿 ");
        }
        text.append(branch.as_str());
        rows.push(Row { text, style });
        i = i + 1;
    }
    ListPane {
        title: "Select Branch (↑/↓ to navigate, Enter to select, Esc to cancel)".to_owned(),
        rows,
    }
}

/// The placeholder of the author filter.
pub fn author_filter_pane() -> (pane: TextPane)
    ensures
        shows_author_filter(pane),
{
    TextPane {
        title: "Author Filter".to_owned(),
        body: "Author filter (not implemented yet)".to_owned(),
    }
}

/// The commit list. Without commits it is a text that says so, not a list
/// with a cursor.
pub fn commit_list_pane(app: &App) -> (pane: Pane)
    ensures
        shows_commits(pane, *app),
        app.commits@.len() == 0 ==> pane is Text,
{
    if app.commits.len() == 0 {
        return Pane::Text(
            TextPane {
                title: "Commits".to_owned(),
                body: "No commits found in the repository.".to_owned(),
            },
        );
    }
    let mut rows: Vec<Row> = Vec::new();
    let mut i: usize = 0;
    while i < app.commits.len()
        invariant
            i <= app.commits@.len(),
            rows@.len() == i,
            forall|j: int|
                0 <= j < i ==> (#[trigger] rows@[j]).text@ == commit_label(app.commits@[j])
                    && rows@[j].style == commit_style(*app, j),
        decreases app.commits.len() - i,
    {
        let commit = &app.commits[i];
        let style = if i == app.selected_index {
            RowStyle::Cursor
        } else {
            RowStyle::Plain
        };
        let mut text = String::new();
        text.append(commit.hash.as_str());
        text.append(" ");
        text.append(commit.message.as_str());
        rows.push(Row { text, style });
        i = i + 1;
    }
    let mut title = String::new();
    title.append("Commits (");
    title.append(app.current_branch.as_str());
    title.append(")");
    Pane::List(ListPane { title, rows })
}

/// The details of the selected commit.
pub fn commit_details_pane(app: &App) -> (pane: TextPane)
    ensures
        shows_details(pane, *app),
{
    let body = if app.commits.len() == 0 {
        "No commit selected.".to_owned()
    } else if app.selected_index < app.commits.len() {
        commit_details(&app.commits[app.selected_index])
    } else {
        "No commit selected".to_owned()
    };
    TextPane { title: "Details".to_owned(), body }
}

/// What `app` shows.
pub fn screen(app: &App) -> (screen: Screen)
    ensures
        shows(screen, *app),
{
    match app.view_mode {
        ViewMode::BranchSelector => Screen::BranchSelector(branch_selector_pane(app)),
        ViewMode::AuthorFilter => Screen::AuthorFilter(author_filter_pane()),
        ViewMode::CommitList => Screen::Commits {
            list: commit_list_pane(app),
            details: commit_details_pane(app),
        },
    }
}

} // verus!
