//! The browsing state and its transitions.
//!
//! The state is a plain value owned by the control loop. Every transition is
//! total: it is defined on every state and every input, and an input that
//! would move a cursor out of range is clamped.

use crate::models::CommitInfo;
use std::collections::VecDeque;
use vstd::prelude::*;

verus! {

/// What the screen shows. Exactly one mode is active at a time.
#[derive(Clone, Copy, Debug, PartialEq, Eq, Structural)]
pub enum ViewMode {
    /// The commit list beside the details of the selected commit.
    CommitList,
    /// The overlay in which a branch is picked.
    BranchSelector,
    /// The overlay of the author filter.
    AuthorFilter,
}

/// The browsing state.
#[derive(Debug, Clone)]
pub struct App {
    /// The commits of the current branch, most recent first.
    pub commits: VecDeque<CommitInfo>,
    /// The cursor in `commits`.
    pub selected_index: usize,
    pub author_filter: Option<String>,
    pub current_branch: String,
    pub branches: Vec<String>,
    /// Whether a search has been started.
    pub search_mode: bool,
    pub search_query: String,
    pub view_mode: ViewMode,
    /// The cursor in `branches`, used by the branch selector.
    pub branch_selector_index: usize,
}

/// A key of the abstract keyboard.
#[derive(Clone, Copy, Debug, PartialEq, Eq, Structural)]
pub enum Key {
    Quit,
    ToggleAuthorFilter,
    ToggleBranchSelector,
    StartSearch,
    Up,
    Down,
    Left,
    Right,
    Confirm,
    Cancel,
}

/// What the control loop has to do after a key.
#[derive(Debug, PartialEq, Eq)]
pub enum Action {
    /// Nothing but to draw again.
    Continue,
    /// Leave the loop.
    Quit,
    /// Fetch the commits of the named branch and hand the outcome to
    /// `App::confirm_branch_selection`.
    FetchCommits(String),
}

/// The mathematical value of an `Action`.
pub enum ActionView {
    Continue,
    Quit,
    FetchCommits(Seq<char>),
}

impl View for Action {
    type V = ActionView;

    open spec fn view(&self) -> ActionView {
        match self {
            Action::Continue => ActionView::Continue,
            Action::Quit => ActionView::Quit,
            Action::FetchCommits(branch) => ActionView::FetchCommits(branch@),
        }
    }
}

/// Where a cursor at `index` stands after a move by `delta` in a list of
/// `len` items: at `index + delta`, clamped to the list. In an empty list the
/// cursor stays where it is.
pub open spec fn moved(index: int, delta: int, len: int) -> int {
    if len <= 0 {
        index
    } else if index + delta < 0 {
        0
    } else if index + delta > len - 1 {
        len - 1
    } else {
        index + delta
    }
}

/// The first position from `from` on at which `names` holds `name`, or the
/// length of `names` when it holds it nowhere from there on.
pub open spec fn position_from(names: Seq<String>, name: Seq<char>, from: int) -> int
    decreases names.len() - from,
{
    if from >= names.len() {
        names.len() as int
    } else if names[from]@ == name {
        from
    } else {
        position_from(names, name, from + 1)
    }
}

/// Whether `names` holds `name`.
pub open spec fn holds_name(names: Seq<String>, name: Seq<char>) -> bool {
    exists|i: int| 0 <= i < names.len() && (#[trigger] names[i])@ == name
}

/// Where the branch selector's cursor goes when the selector opens: to the
/// first position of `name` in `names`, or to 0 when `names` does not hold it.
pub open spec fn selector_cursor(names: Seq<String>, name: Seq<char>) -> int {
    if position_from(names, name, 0) < names.len() {
        position_from(names, name, 0)
    } else {
        0
    }
}

/// `position_from` finds the first match: what it returns is in range and a
/// match unless it is the length, and nothing before it from `from` on
/// matches.
pub proof fn lemma_position_from(names: Seq<String>, name: Seq<char>, from: int)
    requires
        0 <= from <= names.len(),
    ensures
        from <= position_from(names, name, from) <= names.len(),
        position_from(names, name, from) < names.len() ==> names[position_from(
            names,
            name,
            from,
        )]@ == name,
        forall|j: int| from <= j < position_from(names, name, from) ==> (#[trigger] names[j])@ != name,
    decreases names.len() - from,
{
    if from < names.len() && names[from]@ != name {
        lemma_position_from(names, name, from + 1);
    }
}

/// When the selector opens, its cursor points at the current branch's
/// position if the branch is among the branches, and at 0 if it is not.
pub proof fn lemma_selector_cursor(names: Seq<String>, name: Seq<char>)
    ensures
        holds_name(names, name) ==> {
            let k = selector_cursor(names, name);
            &&& 0 <= k < names.len()
            &&& names[k]@ == name
            &&& forall|j: int| 0 <= j < k ==> (#[trigger] names[j])@ != name
        },
        !holds_name(names, name) ==> selector_cursor(names, name) == 0,
{
    lemma_position_from(names, name, 0);
}

impl App {
    /// Whether both cursors are in range wherever their lists are not empty.
    pub open spec fn wf(&self) -> bool {
        &&& self.commits@.len() > 0 ==> self.selected_index < self.commits@.len()
        &&& self.branches@.len() > 0 ==> self.branch_selector_index < self.branches@.len()
    }

    /// The state after `move_selection(delta)`.
    pub open spec fn after_move_selection(self, delta: int) -> App {
        App {
            selected_index: moved(
                self.selected_index as int,
                delta,
                self.commits@.len() as int,
            ) as usize,
            ..self
        }
    }

    /// The state after `move_branch_selector(delta)`.
    pub open spec fn after_move_branch_selector(self, delta: int) -> App {
        App {
            branch_selector_index: moved(
                self.branch_selector_index as int,
                delta,
                self.branches@.len() as int,
            ) as usize,
            ..self
        }
    }

    /// The state after `enter_branch_selector()`.
    pub open spec fn after_enter_branch_selector(self) -> App {
        App {
            view_mode: ViewMode::BranchSelector,
            branch_selector_index: selector_cursor(self.branches@, self.current_branch@) as usize,
            ..self
        }
    }

    /// The state after `cancel_overlay()`.
    pub open spec fn after_cancel_overlay(self) -> App {
        App { view_mode: ViewMode::CommitList, ..self }
    }

    /// The state after `toggle_branch_selector()`.
    pub open spec fn after_toggle_branch_selector(self) -> App {
        if self.view_mode == ViewMode::BranchSelector {
            self.after_cancel_overlay()
        } else {
            self.after_enter_branch_selector()
        }
    }

    /// The state after `toggle_author_filter()`.
    pub open spec fn after_toggle_author_filter(self) -> App {
        App {
            view_mode: if self.view_mode == ViewMode::AuthorFilter {
                ViewMode::CommitList
            } else {
                ViewMode::AuthorFilter
            },
            ..self
        }
    }

    /// The state after `start_search()`.
    pub open spec fn after_start_search(self) -> App {
        App { search_mode: true, ..self }
    }

    /// Whether a branch can be confirmed: the selector is open and its
    /// cursor is on a branch.
    pub open spec fn can_confirm(self) -> bool {
        self.view_mode == ViewMode::BranchSelector && self.branch_selector_index
            < self.branches@.len()
    }

    /// The state after `confirm_branch_selection(fetched)`: where a branch
    /// can be confirmed and its commits were fetched, the branch under the
    /// selector's cursor is the current one, its commits are loaded with the
    /// cursor on the first, and the commit list is shown. Otherwise nothing
    /// has changed.
    pub open spec fn after_confirm(self, fetched: Option<VecDeque<CommitInfo>>) -> App {
        match fetched {
            Some(commits) => if self.can_confirm() {
                App {
                    current_branch: self.branches@[self.branch_selector_index as int],
                    commits,
                    selected_index: 0,
                    view_mode: ViewMode::CommitList,
                    ..self
                }
            } else {
                self
            },
            None => self,
        }
    }

    /// The state after the key `key`.
    pub open spec fn after_key(self, key: Key) -> App {
        match key {
            Key::Quit => self,
            Key::ToggleAuthorFilter => self.after_toggle_author_filter(),
            Key::ToggleBranchSelector => self.after_toggle_branch_selector(),
            Key::StartSearch => self.after_start_search(),
            Key::Up => if self.view_mode == ViewMode::BranchSelector {
                self.after_move_branch_selector(-1)
            } else {
                self.after_move_selection(-1)
            },
            Key::Down => if self.view_mode == ViewMode::BranchSelector {
                self.after_move_branch_selector(1)
            } else {
                self.after_move_selection(1)
            },
            Key::Left => self,
            Key::Right => self,
            Key::Confirm => self,
            Key::Cancel => self.after_cancel_overlay(),
        }
    }

    /// What the control loop has to do after the key `key`.
    pub open spec fn action_for(self, key: Key) -> ActionView {
        match key {
            Key::Quit => ActionView::Quit,
            Key::Confirm => if self.can_confirm() {
                ActionView::FetchCommits(self.branches@[self.branch_selector_index as int]@)
            } else {
                ActionView::Continue
            },
            _ => ActionView::Continue,
        }
    }

    /// The initial state: the commit list, nothing loaded, the cursor at 0,
    /// and `main` as the current branch.
    pub fn new() -> (app: App)
        ensures
            app.commits@.len() == 0,
            app.selected_index == 0,
            app.author_filter is None,
            app.current_branch@ == "main"@,
            app.branches@.len() == 0,
            !app.search_mode,
            app.search_query@.len() == 0,
            app.view_mode == ViewMode::CommitList,
            app.branch_selector_index == 0,
            app.wf(),
    {
        App {
            commits: VecDeque::new(),
            selected_index: 0,
            author_filter: None,
            current_branch: "main".to_owned(),
            branches: Vec::new(),
            search_mode: false,
            search_query: String::new(),
            view_mode: ViewMode::CommitList,
            branch_selector_index: 0,
        }
    }

    /// Moves the commit cursor by `delta`, clamped to the list. Does nothing
    /// when there are no commits.
    pub fn move_selection(&mut self, delta: i32)
        ensures
            *final(self) == old(self).after_move_selection(delta as int),
            old(self).commits@.len() == 0 ==> *final(self) == *old(self),
            final(self).commits@.len() > 0 ==> final(self).selected_index < final(self).commits@.len(),
    {
        self.selected_index = shift(self.selected_index, delta, self.commits.len());
    }

    /// Moves the branch selector's cursor by `delta`, clamped to the list
    /// of branches. Does nothing when there are no branches.
    pub fn move_branch_selector(&mut self, delta: i32)
        ensures
            *final(self) == old(self).after_move_branch_selector(delta as int),
            old(self).branches@.len() == 0 ==> *final(self) == *old(self),
            final(self).branches@.len() > 0 ==> final(self).branch_selector_index < final(self).branches@.len(),
    {
        self.branch_selector_index = shift(self.branch_selector_index, delta, self.branches.len());
    }

    /// Moves the branch selector's cursor as `move_branch_selector` does.
    pub fn navigate_branch_selector(&mut self, direction: i32)
        ensures
            *final(self) == old(self).after_move_branch_selector(direction as int),
            old(self).branches@.len() == 0 ==> *final(self) == *old(self),
            final(self).branches@.len() > 0 ==> final(self).branch_selector_index < final(self).branches@.len(),
    {
        self.move_branch_selector(direction);
    }

    /// Moves the commit cursor one up.
    pub fn navigate_up(&mut self)
        ensures
            *final(self) == old(self).after_move_selection(-1),
    {
        self.move_selection(-1);
    }

    /// Moves the commit cursor one down.
    pub fn navigate_down(&mut self)
        ensures
            *final(self) == old(self).after_move_selection(1),
    {
        self.move_selection(1);
    }

    /// Left has no meaning yet: the state stays as it is.
    pub fn navigate_left(&mut self)
        ensures
            *final(self) == *old(self),
    {
    }

    /// Right has no meaning yet: the state stays as it is.
    pub fn navigate_right(&mut self)
        ensures
            *final(self) == *old(self),
    {
    }

    /// Arms the search. The view mode stays as it is.
    pub fn start_search(&mut self)
        ensures
            *final(self) == old(self).after_start_search(),
    {
        self.search_mode = true;
    }

    /// Leaves the author filter if it is shown, and shows it otherwise.
    pub fn toggle_author_filter(&mut self)
        ensures
            *final(self) == old(self).after_toggle_author_filter(),
    {
        self.view_mode = match self.view_mode {
            ViewMode::AuthorFilter => ViewMode::CommitList,
            _ => ViewMode::AuthorFilter,
        };
    }

    /// The position of the current branch among the branches, or 0 when it
    /// is not among them.
    pub fn current_branch_position(&self) -> (position: usize)
        ensures
            position == selector_cursor(self.branches@, self.current_branch@),
    {
        let mut i: usize = 0;
        while i < self.branches.len()
            invariant
                i <= self.branches@.len(),
                position_from(self.branches@, self.current_branch@, 0) == position_from(
                    self.branches@,
                    self.current_branch@,
                    i as int,
                ),
            decreases self.branches.len() - i,
        {
            if self.branches[i] == self.current_branch {
                return i;
            }
            i = i + 1;
        }
        0
    }

    /// Opens the branch selector with its cursor on the current branch, or
    /// on the first branch when the current one is not among the branches.
    pub fn enter_branch_selector(&mut self)
        ensures
            *final(self) == old(self).after_enter_branch_selector(),
            final(self).view_mode == ViewMode::BranchSelector,
            holds_name(old(self).branches@, old(self).current_branch@) ==> {
                let k = final(self).branch_selector_index as int;
                &&& 0 <= k < old(self).branches@.len()
                &&& old(self).branches@[k]@ == old(self).current_branch@
                &&& forall|j: int|
                    0 <= j < k ==> (#[trigger] old(self).branches@[j])@ != old(self).current_branch@
            },
            !holds_name(old(self).branches@, old(self).current_branch@) ==> final(self).branch_selector_index == 0,
    {
        proof {
            lemma_selector_cursor(self.branches@, self.current_branch@);
        }
        self.branch_selector_index = self.current_branch_position();
        self.view_mode = ViewMode::BranchSelector;
    }

    /// Returns to the commit list, whichever overlay was shown.
    pub fn cancel_overlay(&mut self)
        ensures
            *final(self) == old(self).after_cancel_overlay(),
    {
        self.view_mode = ViewMode::CommitList;
    }

    /// Closes the branch selector if it is open, and opens it otherwise.
    pub fn toggle_branch_selector(&mut self)
        ensures
            *final(self) == old(self).after_toggle_branch_selector(),
    {
        match self.view_mode {
            ViewMode::BranchSelector => self.cancel_overlay(),
            _ => self.enter_branch_selector(),
        }
    }

    /// Makes the branch at `index` the current one and puts the selector's
    /// cursor on it. Out of range, nothing changes and the result is `false`.
    pub fn select_branch(&mut self, index: usize) -> (selected: bool)
        ensures
            selected == (index < old(self).branches@.len()),
            selected ==> *final(self) == (App {
                current_branch: old(self).branches@[index as int],
                branch_selector_index: index,
                ..*old(self)
            }),
            !selected ==> *final(self) == *old(self),
    {
        if index < self.branches.len() {
            self.current_branch = self.branches[index].clone();
            self.branch_selector_index = index;
            true
        } else {
            false
        }
    }

    /// The branch that a confirmation would switch to: the one under the
    /// selector's cursor, while the selector is open and the cursor is in
    /// range.
    pub fn branch_to_confirm(&self) -> (branch: Option<&String>)
        ensures
            branch is Some == self.can_confirm(),
            branch matches Some(name) ==> *name == self.branches@[self.branch_selector_index as int],
    {
        match self.view_mode {
            ViewMode::BranchSelector => {
                if self.branch_selector_index < self.branches.len() {
                    Some(&self.branches[self.branch_selector_index])
                } else {
                    None
                }
            },
            _ => None,
        }
    }

    /// Completes a branch switch with the outcome of the fetch: `Some` with
    /// the commits of the branch under the selector's cursor, or `None` when
    /// the fetch failed. A failed fetch leaves the state as it was, selector
    /// open and branch unchanged, so that commits and current branch always
    /// belong together. The result says whether the branch was switched.
    pub fn confirm_branch_selection(&mut self, fetched: Option<VecDeque<CommitInfo>>) -> (switched:
        bool)
        ensures
            switched == (old(self).can_confirm() && fetched is Some),
            *final(self) == old(self).after_confirm(fetched),
            switched ==> final(self).view_mode == ViewMode::CommitList && final(self).selected_index
                == 0,
            old(self).wf() ==> final(self).wf(),
    {
        match fetched {
            Some(commits) => {
                if self.branch_to_confirm().is_some() {
                    let index = self.branch_selector_index;
                    self.current_branch = self.branches[index].clone();
                    self.commits = commits;
                    self.selected_index = 0;
                    self.view_mode = ViewMode::CommitList;
                    true
                } else {
                    false
                }
            },
            None => false,
        }
    }

    /// Takes one key. Up and down go to the branch selector's cursor while
    /// the selector is open and to the commit cursor otherwise; confirm asks
    /// for the commits of the branch under the selector's cursor and changes
    /// nothing by itself.
    pub fn handle_key(&mut self, key: Key) -> (action: Action)
        ensures
            *final(self) == old(self).after_key(key),
            action@ == old(self).action_for(key),
            old(self).wf() ==> final(self).wf(),
    {
        proof {
            if old(self).wf() {
                lemma_key_keeps_cursors_in_range(*old(self), key);
            }
        }
        match key {
            Key::Quit => Action::Quit,
            Key::ToggleAuthorFilter => {
                self.toggle_author_filter();
                Action::Continue
            },
            Key::ToggleBranchSelector => {
                self.toggle_branch_selector();
                Action::Continue
            },
            Key::StartSearch => {
                self.start_search();
                Action::Continue
            },
            Key::Up => {
                match self.view_mode {
                    ViewMode::BranchSelector => self.navigate_branch_selector(-1),
                    _ => self.navigate_up(),
                }
                Action::Continue
            },
            Key::Down => {
                match self.view_mode {
                    ViewMode::BranchSelector => self.navigate_branch_selector(1),
                    _ => self.navigate_down(),
                }
                Action::Continue
            },
            Key::Left => {
                self.navigate_left();
                Action::Continue
            },
            Key::Right => {
                self.navigate_right();
                Action::Continue
            },
            Key::Confirm => {
                match self.branch_to_confirm() {
                    Some(name) => Action::FetchCommits(name.clone()),
                    None => Action::Continue,
                }
            },
            Key::Cancel => {
                self.cancel_overlay();
                Action::Continue
            },
        }
    }
}

/// Whatever the move, the commit cursor ends within a list that is not
/// empty.
pub proof fn lemma_selection_in_bounds(app: App, delta: int)
    requires
        app.commits@.len() > 0,
    ensures
        0 <= app.after_move_selection(delta).selected_index < app.commits@.len(),
        app.after_move_selection(delta).commits == app.commits,
{
}

/// A key leaves both cursors in range if they were in range.
pub proof fn lemma_key_keeps_cursors_in_range(app: App, key: Key)
    requires
        app.wf(),
    ensures
        app.after_key(key).wf(),
{
    lemma_position_from(app.branches@, app.current_branch@, 0);
}

/// A confirmation leaves both cursors in range if they were in range.
pub proof fn lemma_confirm_keeps_cursors_in_range(app: App, fetched: Option<VecDeque<CommitInfo>>)
    requires
        app.wf(),
    ensures
        app.after_confirm(fetched).wf(),
{
}

/// Without commits, moving the commit cursor changes nothing.
pub proof fn lemma_move_in_empty_list(app: App, delta: int)
    requires
        app.commits@.len() == 0,
    ensures
        app.after_move_selection(delta) == app,
{
}

/// The branch to browse at start: the first of `branches`; without
/// branches, `main` if it exists, else `master` if it exists, else none.
pub fn initial_branch(branches: &Vec<String>, main_exists: bool, master_exists: bool) -> (branch:
    Option<String>)
    ensures
        branches@.len() > 0 ==> branch == Some(branches@[0]),
        branches@.len() == 0 && main_exists ==> branch is Some && branch->0@ == "main"@,
        branches@.len() == 0 && !main_exists && master_exists ==> branch is Some && branch->0@
            == "master"@,
        branches@.len() == 0 && !main_exists && !master_exists ==> branch is None,
{
    if branches.len() > 0 {
        Some(branches[0].clone())
    } else if main_exists {
        Some("main".to_owned())
    } else if master_exists {
        Some("master".to_owned())
    } else {
        None
    }
}

/// Moves a cursor: see `moved`.
fn shift(index: usize, delta: i32, len: usize) -> (r: usize)
    ensures
        r == moved(index as int, delta as int, len as int),
{
    if len == 0 {
        return index;
    }
    let last: usize = len - 1;
    if delta >= 0 {
        let forward: usize = delta as usize;
        if index >= last {
            last
        } else if forward >= last - index {
            last
        } else {
            index + forward
        }
    } else {
        let back: i64 = -(delta as i64);
        if back as u64 >= index as u64 {
            0
        } else if index - back as usize > last {
            last
        } else {
            index - back as usize
        }
    }
}

} // verus!
