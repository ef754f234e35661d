//! The plain records that the browser shows.

use vstd::prelude::*;
use vstd::string::StringExecFns;

verus! {

/// One commit of a branch's history.
#[derive(Debug, Clone, PartialEq, Eq)]
pub struct CommitInfo {
    /// The commit's identity; unique within a branch's history.
    pub hash: String,
    pub message: String,
    /// The author as shown: name and address.
    pub author: String,
    /// The commit time, formatted in local time.
    pub date: String,
    /// The unified diff against the first parent; absent for a commit
    /// without parent.
    pub diff: Option<String>,
}

/// The characters of a text that may be missing.
pub open spec fn text_view(text: Option<&str>) -> Option<Seq<char>> {
    match text {
        Some(t) => Some(t@),
        None => None,
    }
}

/// How an author is shown: the name, or `Unknown` where the commit has none,
/// then the address in angle brackets, or `unknown@email.com` where it has
/// none.
pub open spec fn author_text(name: Option<Seq<char>>, email: Option<Seq<char>>) -> Seq<char> {
    (match name {
        Some(n) => n,
        None => "Unknown"@,
    }) + " <"@ + (match email {
        Some(e) => e,
        None => "unknown@email.com"@,
    }) + ">"@
}

/// The author as shown.
pub fn author_line(name: Option<&str>, email: Option<&str>) -> (author: String)
    ensures
        author@ == author_text(text_view(name), text_view(email)),
{
    let mut author = String::new();
    match name {
        Some(n) => author.append(n),
        None => author.append("Unknown"),
    }
    author.append(" <");
    match email {
        Some(e) => author.append(e),
        None => author.append("unknown@email.com"),
    }
    author.append(">");
    author
}

impl CommitInfo {
    /// Puts a commit together from what the repository tells of it. A
    /// commit without a readable message has the empty message; the author
    /// is shown as `author_text` says.
    pub fn assemble(
        hash: String,
        message: Option<String>,
        author_name: Option<&str>,
        author_email: Option<&str>,
        date: String,
        diff: Option<String>,
    ) -> (commit: CommitInfo)
        ensures
            commit.hash == hash,
            commit.message@ == (match message {
                Some(m) => m@,
                None => Seq::<char>::empty(),
            }),
            commit.author@ == author_text(text_view(author_name), text_view(author_email)),
            commit.date == date,
            commit.diff == diff,
    {
        CommitInfo {
            hash,
            message: match message {
                Some(m) => m,
                None => String::new(),
            },
            author: author_line(author_name, author_email),
            date,
            diff,
        }
    }
}

/// An author of commits.
#[derive(Debug, Clone, PartialEq, Eq)]
pub struct AuthorInfo {
    pub name: String,
    pub email: String,
}

/// A branch, and whether it is the one being browsed.
#[derive(Debug, Clone, PartialEq, Eq)]
pub struct BranchInfo {
    pub name: String,
    pub is_current: bool,
}

} // verus!
