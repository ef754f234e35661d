//! Summaries of unified diffs: one record per file section, saying which file
//! a commit touched and how.
//!
//! A diff is read line by line. A line that begins with `diff --git` opens a
//! file section; the lines up to the next such line (or the end of the text)
//! belong to that section and are absorbed into its accumulator. Lines before
//! the first section belong to no file and are skipped.

use crate::text::{find_char, find_from, from_chars, lemma_find_from, parse_number, parse_usize, starts_with, to_chars};
use vstd::prelude::*;
use vstd::slice::slice_subrange;

verus! {

/// How a file was changed.
///
/// A summary tells renames from other changes and changed files from
/// unchanged ones, so its records are `Modified`, `Renamed`,
/// `RenamedModified` or `Unchanged` (see `SectionView::kind`). Whether a
/// section carried a new-file or a deleted-file mark is kept in the
/// section's accumulator.
#[derive(Clone, Copy, Debug, PartialEq, Eq, Structural)]
pub enum FileKind {
    /// The file did not exist before.
    Added,
    /// The file exists no more.
    Deleted,
    /// Lines were added or removed, or the diff shows a content change.
    Modified,
    /// The file has a new path and the same content.
    Renamed,
    /// The file has a new path and other content.
    RenamedModified,
    /// Nothing but, at most, the file's mode changed.
    Unchanged,
}

/// One file of a diff: where it is now, where it was before a rename, and how
/// many lines were added and removed.
#[derive(Clone, Debug, PartialEq, Eq)]
pub struct FileChange {
    pub new_path: String,
    /// The previous path; present only for renames.
    pub old_path: Option<String>,
    pub insertions: usize,
    pub deletions: usize,
    pub kind: FileKind,
}

/// The mathematical value of a `FileChange`.
pub struct FileChangeView {
    pub new_path: Seq<char>,
    pub old_path: Option<Seq<char>>,
    pub insertions: nat,
    pub deletions: nat,
    pub kind: FileKind,
}

impl View for FileChange {
    type V = FileChangeView;

    open spec fn view(&self) -> FileChangeView {
        FileChangeView {
            new_path: self.new_path@,
            old_path: match self.old_path {
                Some(p) => Some(p@),
                None => None,
            },
            insertions: self.insertions as nat,
            deletions: self.deletions as nat,
            kind: self.kind,
        }
    }
}

/// The values of a sequence of records, in the same order.
pub open spec fn change_views(changes: Seq<FileChange>) -> Seq<FileChangeView> {
    changes.map_values(|c: FileChange| c@)
}

/// What a line of a diff is, judged by how it begins.
#[derive(Clone, Copy, Debug, PartialEq, Eq, Structural)]
pub enum LineKind {
    /// `diff --git ...`: opens a file section.
    Header,
    /// `similarity index N%`
    Similarity,
    /// `rename from <path>`
    RenameFrom,
    /// `rename to <path>`
    RenameTo,
    /// `new file mode ...`
    NewFile,
    /// `deleted file mode ...`
    DeletedFile,
    /// `--- ...` or `+++ ...`
    FileMarker,
    /// `@@ ...`: opens a hunk.
    HunkHeader,
    /// A line that begins with `+` but not with `+++`.
    Addition,
    /// A line that begins with `-` but not with `---`.
    Deletion,
    /// Anything else.
    Other,
}

/// The kind of a line. Where several beginnings could apply, the earlier one
/// in this list decides.
pub open spec fn line_kind(line: Seq<char>) -> LineKind {
    if "diff --git"@.is_prefix_of(line) {
        LineKind::Header
    } else if "similarity index "@.is_prefix_of(line) {
        LineKind::Similarity
    } else if "rename from "@.is_prefix_of(line) {
        LineKind::RenameFrom
    } else if "rename to "@.is_prefix_of(line) {
        LineKind::RenameTo
    } else if "new file mode"@.is_prefix_of(line) {
        LineKind::NewFile
    } else if "deleted file mode"@.is_prefix_of(line) {
        LineKind::DeletedFile
    } else if "--- "@.is_prefix_of(line) || "+++ "@.is_prefix_of(line) {
        LineKind::FileMarker
    } else if "@@"@.is_prefix_of(line) {
        LineKind::HunkHeader
    } else if "+"@.is_prefix_of(line) && !"+++"@.is_prefix_of(line) {
        LineKind::Addition
    } else if "-"@.is_prefix_of(line) && !"---"@.is_prefix_of(line) {
        LineKind::Deletion
    } else {
        LineKind::Other
    }
}

/// `s` without `prefix` in front, where it begins with `prefix`; the prefix is
/// taken off once.
pub open spec fn without_prefix(s: Seq<char>, prefix: Seq<char>) -> Seq<char> {
    if prefix.is_prefix_of(s) {
        s.skip(prefix.len() as int)
    } else {
        s
    }
}

/// The old and the new path that a header line names. The line is cut at
/// single spaces; with four fields or more, the third field without a leading
/// `a/` is the old path and the fourth without a leading `b/` is the new one.
/// With fewer fields the line names no path, and both are empty.
pub open spec fn header_paths(line: Seq<char>) -> (Seq<char>, Seq<char>) {
    let e0 = find_from(line, ' ', 0);
    let e1 = find_from(line, ' ', e0 + 1);
    let e2 = find_from(line, ' ', e1 + 1);
    let e3 = find_from(line, ' ', e2 + 1);
    if e2 < line.len() {
        (
            without_prefix(line.subrange(e1 + 1, e2), "a/"@),
            without_prefix(line.subrange(e2 + 1, e3), "b/"@),
        )
    } else {
        (Seq::empty(), Seq::empty())
    }
}

/// The percentage that a `similarity index N%` line states: what follows the
/// marker is a number and one percent sign. A line of another form states
/// none.
pub open spec fn similarity_value(line: Seq<char>) -> Option<usize> {
    let marker = "similarity index "@;
    let rest = line.skip(marker.len() as int);
    if marker.is_prefix_of(line) && rest.len() > 0 && rest.last() == '%' {
        parse_number(rest.drop_last())
    } else {
        None
    }
}

/// The accumulator of the file section being read, as a mathematical value.
pub struct SectionView {
    pub old_path: Seq<char>,
    /// Empty as long as no new path is known.
    pub new_path: Seq<char>,
    pub insertions: nat,
    pub deletions: nat,
    pub is_rename: bool,
    pub similarity: nat,
    pub has_content_change: bool,
    pub in_hunk: bool,
    pub new_file: bool,
    pub deleted_file: bool,
}

impl SectionView {
    /// The accumulator right after the header `line`: the paths that the
    /// header names, and nothing counted or flagged yet.
    pub open spec fn start(line: Seq<char>) -> SectionView {
        SectionView {
            old_path: header_paths(line).0,
            new_path: header_paths(line).1,
            insertions: 0,
            deletions: 0,
            is_rename: false,
            similarity: 0,
            has_content_change: false,
            in_hunk: false,
            new_file: false,
            deleted_file: false,
        }
    }

    /// The accumulator after one more line of the section.
    pub open spec fn absorb(self, line: Seq<char>) -> SectionView {
        match line_kind(line) {
            LineKind::Similarity => match similarity_value(line) {
                Some(n) => SectionView { similarity: n as nat, ..self },
                None => self,
            },
            LineKind::RenameFrom => SectionView {
                is_rename: true,
                old_path: if self.old_path.len() == 0 {
                    line.skip("rename from "@.len() as int)
                } else {
                    self.old_path
                },
                ..self
            },
            LineKind::RenameTo => SectionView {
                is_rename: true,
                new_path: if self.new_path.len() == 0 {
                    line.skip("rename to "@.len() as int)
                } else {
                    self.new_path
                },
                ..self
            },
            LineKind::NewFile => SectionView { new_file: true, ..self },
            LineKind::DeletedFile => SectionView { deleted_file: true, ..self },
            LineKind::FileMarker => SectionView { has_content_change: true, ..self },
            LineKind::HunkHeader => SectionView { has_content_change: true, in_hunk: true, ..self },
            LineKind::Addition => if self.in_hunk {
                SectionView { insertions: self.insertions + 1, ..self }
            } else {
                self
            },
            LineKind::Deletion => if self.in_hunk {
                SectionView { deletions: self.deletions + 1, ..self }
            } else {
                self
            },
            LineKind::Header => self,
            LineKind::Other => self,
        }
    }

    /// How the section's file was changed: a rename is `Renamed` when the
    /// similarity is 100 and `RenamedModified` otherwise; another file is
    /// `Modified` when lines were counted or a content change was seen, and
    /// `Unchanged` otherwise.
    pub open spec fn kind(self) -> FileKind {
        if self.is_rename {
            if self.similarity == 100 {
                FileKind::Renamed
            } else {
                FileKind::RenamedModified
            }
        } else if self.insertions > 0 || self.deletions > 0 || self.has_content_change {
            FileKind::Modified
        } else {
            FileKind::Unchanged
        }
    }

    /// The record that the section amounts to.
    pub open spec fn change(self) -> FileChangeView {
        FileChangeView {
            new_path: self.new_path,
            old_path: if self.is_rename && self.old_path.len() > 0 {
                Some(self.old_path)
            } else {
                None
            },
            insertions: self.insertions,
            deletions: self.deletions,
            kind: self.kind(),
        }
    }
}

/// The content of the line that starts at `start`: the text up to the next
/// line feed, or to the end; a carriage return right before the line feed
/// belongs to the line ending.
pub open spec fn line_at(text: Seq<char>, start: int) -> Seq<char> {
    let end = find_from(text, '\n', start);
    if end < text.len() && start < end && text[end - 1] == '\r' {
        text.subrange(start, end - 1)
    } else {
        text.subrange(start, end)
    }
}

/// The lines of `text` from position `start` on. A final line ending opens no
/// further line.
pub open spec fn lines_from(text: Seq<char>, start: int) -> Seq<Seq<char>>
    decreases text.len() + 1 - start,
    when 0 <= start
    via lines_from_terminates
{
    if start >= text.len() {
        Seq::empty()
    } else {
        seq![line_at(text, start)] + lines_from(text, find_from(text, '\n', start) + 1)
    }
}

#[via_fn]
proof fn lines_from_terminates(text: Seq<char>, start: int) {
    if start < text.len() {
        lemma_find_from(text, '\n', start);
    }
}

/// The lines of `text`.
pub open spec fn lines(text: Seq<char>) -> Seq<Seq<char>> {
    lines_from(text, 0)
}

/// The state of a scan: the records of the sections that are closed, and the
/// accumulator of the open one, if a section is open.
pub struct ScanView {
    pub records: Seq<FileChangeView>,
    pub current: Option<SectionView>,
}

impl ScanView {
    /// Before the first line: nothing recorded, no section open.
    pub open spec fn start() -> ScanView {
        ScanView { records: Seq::empty(), current: None }
    }

    /// The records once the open section is closed. A section without a new
    /// path leaves no record.
    pub open spec fn flushed(self) -> Seq<FileChangeView> {
        match self.current {
            Some(section) => if section.new_path.len() > 0 {
                self.records.push(section.change())
            } else {
                self.records
            },
            None => self.records,
        }
    }

    /// The state after one more line. A header closes the open section and
    /// opens a new one; any other line goes to the open section, or nowhere
    /// when none is open.
    pub open spec fn step(self, line: Seq<char>) -> ScanView {
        if line_kind(line) == LineKind::Header {
            ScanView { records: self.flushed(), current: Some(SectionView::start(line)) }
        } else {
            match self.current {
                Some(section) => ScanView {
                    records: self.records,
                    current: Some(section.absorb(line)),
                },
                None => self,
            }
        }
    }

    /// The state after the given lines, taken in order.
    pub open spec fn run(self, lines: Seq<Seq<char>>) -> ScanView
        decreases lines.len(),
    {
        if lines.len() == 0 {
            self
        } else {
            self.step(lines[0]).run(lines.drop_first())
        }
    }
}

/// The summary of a diff: the records of its file sections, in the order in
/// which the sections appear.
pub open spec fn summary(text: Seq<char>) -> Seq<FileChangeView> {
    ScanView::start().run(lines(text)).flushed()
}

/// The number of header lines among `lines`.
pub open spec fn header_count(lines: Seq<Seq<char>>) -> nat
    decreases lines.len(),
{
    if lines.len() == 0 {
        0
    } else {
        (if line_kind(lines[0]) == LineKind::Header {
            1nat
        } else {
            0nat
        }) + header_count(lines.drop_first())
    }
}

/// The beginnings by which lines are told apart, held as characters so that
/// a line can be tried against them without decoding anything twice.
pub struct Markers {
    header: Vec<char>,
    similarity: Vec<char>,
    rename_from: Vec<char>,
    rename_to: Vec<char>,
    new_file: Vec<char>,
    deleted_file: Vec<char>,
    old_side: Vec<char>,
    new_side: Vec<char>,
    hunk: Vec<char>,
    plus: Vec<char>,
    plus_run: Vec<char>,
    minus: Vec<char>,
    minus_run: Vec<char>,
    old_prefix: Vec<char>,
    new_prefix: Vec<char>,
}

/// The marker texts of a `Markers`, as a mathematical value.
pub struct MarkersView {
    pub header: Seq<char>,
    pub similarity: Seq<char>,
    pub rename_from: Seq<char>,
    pub rename_to: Seq<char>,
    pub new_file: Seq<char>,
    pub deleted_file: Seq<char>,
    pub old_side: Seq<char>,
    pub new_side: Seq<char>,
    pub hunk: Seq<char>,
    pub plus: Seq<char>,
    pub plus_run: Seq<char>,
    pub minus: Seq<char>,
    pub minus_run: Seq<char>,
    pub old_prefix: Seq<char>,
    pub new_prefix: Seq<char>,
}

/// The markers of the unified diff format: the beginnings that `line_kind`
/// tells lines apart by, and the two prefixes that a header puts before its
/// paths.
pub open spec fn diff_markers() -> MarkersView {
    MarkersView {
        header: "diff --git"@,
        similarity: "similarity index "@,
        rename_from: "rename from "@,
        rename_to: "rename to "@,
        new_file: "new file mode"@,
        deleted_file: "deleted file mode"@,
        old_side: "--- "@,
        new_side: "+++ "@,
        hunk: "@@"@,
        plus: "+"@,
        plus_run: "+++"@,
        minus: "-"@,
        minus_run: "---"@,
        old_prefix: "a/"@,
        new_prefix: "b/"@,
    }
}

impl View for Markers {
    type V = MarkersView;

    closed spec fn view(&self) -> MarkersView {
        MarkersView {
            header: self.header@,
            similarity: self.similarity@,
            rename_from: self.rename_from@,
            rename_to: self.rename_to@,
            new_file: self.new_file@,
            deleted_file: self.deleted_file@,
            old_side: self.old_side@,
            new_side: self.new_side@,
            hunk: self.hunk@,
            plus: self.plus@,
            plus_run: self.plus_run@,
            minus: self.minus@,
            minus_run: self.minus_run@,
            old_prefix: self.old_prefix@,
            new_prefix: self.new_prefix@,
        }
    }
}

impl Markers {
    #[verifier::type_invariant]
    spec fn holds_the_markers(self) -> bool {
        self@ == diff_markers()
    }

    /// The markers of the unified diff format, each held as the characters
    /// of its text.
    pub fn new() -> (markers: Markers)
        ensures
            markers@ == diff_markers(),
    {
        Markers {
            header: to_chars("diff --git"),
            similarity: to_chars("similarity index "),
            rename_from: to_chars("rename from "),
            rename_to: to_chars("rename to "),
            new_file: to_chars("new file mode"),
            deleted_file: to_chars("deleted file mode"),
            old_side: to_chars("--- "),
            new_side: to_chars("+++ "),
            hunk: to_chars("@@"),
            plus: to_chars("+"),
            plus_run: to_chars("+++"),
            minus: to_chars("-"),
            minus_run: to_chars("---"),
            old_prefix: to_chars("a/"),
            new_prefix: to_chars("b/"),
        }
    }

    /// Tells what kind of line `line` is.
    pub fn classify(&self, line: &[char]) -> (kind: LineKind)
        ensures
            kind == line_kind(line@),
    {
        proof {
            use_type_invariant(self);
        }
        if starts_with(line, self.header.as_slice()) {
            LineKind::Header
        } else if starts_with(line, self.similarity.as_slice()) {
            LineKind::Similarity
        } else if starts_with(line, self.rename_from.as_slice()) {
            LineKind::RenameFrom
        } else if starts_with(line, self.rename_to.as_slice()) {
            LineKind::RenameTo
        } else if starts_with(line, self.new_file.as_slice()) {
            LineKind::NewFile
        } else if starts_with(line, self.deleted_file.as_slice()) {
            LineKind::DeletedFile
        } else if starts_with(line, self.old_side.as_slice()) || starts_with(
            line,
            self.new_side.as_slice(),
        ) {
            LineKind::FileMarker
        } else if starts_with(line, self.hunk.as_slice()) {
            LineKind::HunkHeader
        } else if starts_with(line, self.plus.as_slice()) && !starts_with(
            line,
            self.plus_run.as_slice(),
        ) {
            LineKind::Addition
        } else if starts_with(line, self.minus.as_slice()) && !starts_with(
            line,
            self.minus_run.as_slice(),
        ) {
            LineKind::Deletion
        } else {
            LineKind::Other
        }
    }

    /// Reads the two paths that a header line names.
    pub fn read_header_paths(&self, line: &[char]) -> (paths: (String, String))
        ensures
            paths.0@ == header_paths(line@).0,
            paths.1@ == header_paths(line@).1,
    {
        proof {
            use_type_invariant(self);
        }
        let n = line.len();
        let e0 = find_char(line, ' ', 0);
        if e0 >= n {
            return (String::new(), String::new());
        }
        let e1 = find_char(line, ' ', e0 + 1);
        if e1 >= n {
            return (String::new(), String::new());
        }
        let e2 = find_char(line, ' ', e1 + 1);
        if e2 >= n {
            return (String::new(), String::new());
        }
        let e3 = find_char(line, ' ', e2 + 1);
        let old_field = strip_once(slice_subrange(line, e1 + 1, e2), self.old_prefix.as_slice());
        let new_field = strip_once(slice_subrange(line, e2 + 1, e3), self.new_prefix.as_slice());
        (from_chars(old_field), from_chars(new_field))
    }

    /// Reads the percentage that a `similarity index` line states.
    pub fn read_similarity(&self, line: &[char]) -> (value: Option<usize>)
        ensures
            value == similarity_value(line@),
    {
        proof {
            use_type_invariant(self);
        }
        let n = line.len();
        let from = self.similarity.len();
        if starts_with(line, self.similarity.as_slice()) && from < n && line[n - 1] == '%' {
            let number = slice_subrange(line, from, n - 1);
            assert(number@ =~= line@.skip(from as int).drop_last());
            parse_usize(number)
        } else {
            None
        }
    }

    /// Opens the accumulator of the section that the header `line` begins.
    pub fn open_section(&self, line: &[char]) -> (section: Section)
        ensures
            section@ == SectionView::start(line@),
    {
        let (old_path, new_path) = self.read_header_paths(line);
        Section {
            old_path,
            new_path,
            insertions: 0,
            deletions: 0,
            is_rename: false,
            similarity: 0,
            has_content_change: false,
            in_hunk: false,
            new_file: false,
            deleted_file: false,
        }
    }
}

/// `s` without `prefix` in front, where it begins with `prefix`.
fn strip_once<'a>(s: &'a [char], prefix: &[char]) -> (r: &'a [char])
    ensures
        r@ == without_prefix(s@, prefix@),
{
    if starts_with(s, prefix) {
        slice_subrange(s, prefix.len(), s.len())
    } else {
        s
    }
}

/// The accumulator of the file section being read.
#[derive(Debug, Clone, PartialEq, Eq)]
pub struct Section {
    pub old_path: String,
    /// Empty as long as no new path is known.
    pub new_path: String,
    pub insertions: usize,
    pub deletions: usize,
    pub is_rename: bool,
    pub similarity: usize,
    pub has_content_change: bool,
    pub in_hunk: bool,
    pub new_file: bool,
    pub deleted_file: bool,
}

impl View for Section {
    type V = SectionView;

    open spec fn view(&self) -> SectionView {
        SectionView {
            old_path: self.old_path@,
            new_path: self.new_path@,
            insertions: self.insertions as nat,
            deletions: self.deletions as nat,
            is_rename: self.is_rename,
            similarity: self.similarity as nat,
            has_content_change: self.has_content_change,
            in_hunk: self.in_hunk,
            new_file: self.new_file,
            deleted_file: self.deleted_file,
        }
    }
}

impl Section {
    /// Takes one more line of the section into the accumulator. The counts
    /// must have room for one more line.
    pub fn absorb(self, markers: &Markers, line: &[char]) -> (next: Section)
        requires
            self.insertions < usize::MAX,
            self.deletions < usize::MAX,
        ensures
            next@ == self@.absorb(line@),
    {
        let kind = markers.classify(line);
        self.absorb_kind(markers, kind, line)
    }

    /// Takes one more line, whose kind is known, into the accumulator.
    fn absorb_kind(self, markers: &Markers, kind: LineKind, line: &[char]) -> (next: Section)
        requires
            kind == line_kind(line@),
            self.insertions < usize::MAX,
            self.deletions < usize::MAX,
        ensures
            next@ == self@.absorb(line@),
    {
        proof {
            use_type_invariant(markers);
        }
        let mut next = self;
        match kind {
            LineKind::Similarity => {
                match markers.read_similarity(line) {
                    Some(n) => {
                        next.similarity = n;
                    },
                    None => {},
                }
            },
            LineKind::RenameFrom => {
                next.is_rename = true;
                if next.old_path.as_str().is_empty() {
                    next.old_path = from_chars(
                        slice_subrange(line, markers.rename_from.len(), line.len()),
                    );
                }
            },
            LineKind::RenameTo => {
                next.is_rename = true;
                if next.new_path.as_str().is_empty() {
                    next.new_path = from_chars(
                        slice_subrange(line, markers.rename_to.len(), line.len()),
                    );
                }
            },
            LineKind::NewFile => {
                next.new_file = true;
            },
            LineKind::DeletedFile => {
                next.deleted_file = true;
            },
            LineKind::FileMarker => {
                next.has_content_change = true;
            },
            LineKind::HunkHeader => {
                next.has_content_change = true;
                next.in_hunk = true;
            },
            LineKind::Addition => {
                if next.in_hunk {
                    next.insertions = next.insertions + 1;
                }
            },
            LineKind::Deletion => {
                if next.in_hunk {
                    next.deletions = next.deletions + 1;
                }
            },
            LineKind::Header => {},
            LineKind::Other => {},
        }
        next
    }

    /// How the section's file was changed.
    pub fn kind(&self) -> (kind: FileKind)
        ensures
            kind == self@.kind(),
    {
        if self.is_rename {
            if self.similarity == 100 {
                FileKind::Renamed
            } else {
                FileKind::RenamedModified
            }
        } else if self.insertions > 0 || self.deletions > 0 || self.has_content_change {
            FileKind::Modified
        } else {
            FileKind::Unchanged
        }
    }

    /// Closes the section and gives the record that it amounts to.
    pub fn into_change(self) -> (change: FileChange)
        ensures
            change@ == self@.change(),
    {
        let kind = self.kind();
        let old_path = if self.is_rename && !self.old_path.as_str().is_empty() {
            Some(self.old_path)
        } else {
            None
        };
        FileChange {
            new_path: self.new_path,
            old_path,
            insertions: self.insertions,
            deletions: self.deletions,
            kind,
        }
    }
}

/// The value of an accumulator that may or may not be there.
pub open spec fn section_view(current: Option<Section>) -> Option<SectionView> {
    match current {
        Some(section) => Some(section@),
        None => None,
    }
}

/// Closes the open section, if there is one, and appends its record, if it
/// leaves one.
fn close_section(records: &mut Vec<FileChange>, current: Option<Section>)
    ensures
        change_views(final(records)@) == (ScanView {
            records: change_views(old(records)@),
            current: section_view(current),
        }).flushed(),
{
    match current {
        Some(section) => {
            if !section.new_path.as_str().is_empty() {
                let change = section.into_change();
                records.push(change);
            }
        },
        None => {},
    }
}

/// 1 where a section is open, 0 where none is.
pub open spec fn open_sections(current: Option<SectionView>) -> nat {
    if current is Some {
        1
    } else {
        0
    }
}

/// 1 where a section is open and has no new path, 0 otherwise.
pub open spec fn pathless(current: Option<SectionView>) -> nat {
    match current {
        Some(section) => if section.new_path.len() == 0 {
            1
        } else {
            0
        },
        None => 0,
    }
}

/// The number of sections that end without a new path, among the open
/// section of `state` and the sections that `lines` open.
pub open spec fn pathless_sections(state: ScanView, lines: Seq<Seq<char>>) -> nat
    decreases lines.len(),
{
    if lines.len() == 0 {
        pathless(state.current)
    } else {
        (if line_kind(lines[0]) == LineKind::Header {
            pathless(state.current)
        } else {
            0
        }) + pathless_sections(state.step(lines[0]), lines.drop_first())
    }
}

/// A scan leaves one record for each section but those without a new path:
/// its records and the sections without a new path together are the records
/// it began with, the section that was open, and the header lines it read.
pub proof fn lemma_run_count(state: ScanView, lines: Seq<Seq<char>>)
    ensures
        state.run(lines).flushed().len() + pathless_sections(state, lines) == state.records.len()
            + open_sections(state.current) + header_count(lines),
    decreases lines.len(),
{
    if lines.len() > 0 {
        lemma_run_count(state.step(lines[0]), lines.drop_first());
    }
}

/// Whether `kind` is one of the kinds that a section amounts to.
pub open spec fn is_section_kind(kind: FileKind) -> bool {
    kind == FileKind::Modified || kind == FileKind::Renamed || kind == FileKind::RenamedModified
        || kind == FileKind::Unchanged
}

/// A scan adds records of section kinds only.
pub proof fn lemma_run_kinds(state: ScanView, lines: Seq<Seq<char>>)
    requires
        forall|i: int| 0 <= i < state.records.len() ==> is_section_kind(#[trigger] state.records[i].kind),
    ensures
        forall|i: int|
            0 <= i < state.run(lines).flushed().len() ==> is_section_kind(
                #[trigger] state.run(lines).flushed()[i].kind,
            ),
    decreases lines.len(),
{
    if lines.len() > 0 {
        lemma_run_kinds(state.step(lines[0]), lines.drop_first());
    }
}

/// Every record of a summary is `Modified`, `Renamed`, `RenamedModified` or
/// `Unchanged`.
pub proof fn lemma_summary_kinds(text: Seq<char>)
    ensures
        forall|i: int|
            0 <= i < summary(text).len() ==> is_section_kind(#[trigger] summary(text)[i].kind),
{
    lemma_run_kinds(ScanView::start(), lines(text));
}

/// The number of places in `text`, from position `from` on, at which
/// `pattern` begins.
pub open spec fn occurrences_from(text: Seq<char>, pattern: Seq<char>, from: int) -> nat
    decreases text.len() - from,
{
    if from >= text.len() {
        0
    } else {
        (if pattern.is_prefix_of(text.skip(from)) {
            1nat
        } else {
            0nat
        }) + occurrences_from(text, pattern, from + 1)
    }
}

/// The number of places in `text` at which `pattern` begins.
pub open spec fn occurrences(text: Seq<char>, pattern: Seq<char>) -> nat {
    occurrences_from(text, pattern, 0)
}

/// From a later position on there are no more occurrences than from an
/// earlier one.
pub proof fn lemma_occurrences_shrink(text: Seq<char>, pattern: Seq<char>, from: int, later: int)
    requires
        0 <= from <= later,
    ensures
        occurrences_from(text, pattern, later) <= occurrences_from(text, pattern, from),
    decreases later - from,
{
    if from < later {
        lemma_occurrences_shrink(text, pattern, from + 1, later);
    }
}

/// Every header line of a text begins at an occurrence of the header marker
/// of its own.
pub proof fn lemma_headers_are_occurrences(text: Seq<char>, start: int)
    requires
        0 <= start,
    ensures
        header_count(lines_from(text, start)) <= occurrences_from(text, "diff --git"@, start),
    decreases text.len() + 1 - start,
{
    if start < text.len() {
        lemma_find_from(text, '\n', start);
        let end = find_from(text, '\n', start);
        let line = line_at(text, start);
        let rest = lines_from(text, end + 1);
        lemma_headers_are_occurrences(text, end + 1);
        lemma_occurrences_shrink(text, "diff --git"@, start + 1, end + 1);
        assert((seq![line] + rest).drop_first() =~= rest);
        if line_kind(line) == LineKind::Header {
            let marker = "diff --git"@;
        }
    }
}

/// A summary holds one record for each header line of the diff but for the
/// sections without a new path. So it holds at most as many records as the
/// diff has header lines, and at most as many as `diff --git` occurs in it.
pub proof fn lemma_summary_bounded(text: Seq<char>)
    ensures
        summary(text).len() + pathless_sections(ScanView::start(), lines(text)) == header_count(
            lines(text),
        ),
        summary(text).len() <= header_count(lines(text)),
        summary(text).len() <= occurrences(text, "diff --git"@),
{
    lemma_run_count(ScanView::start(), lines(text));
    lemma_headers_are_occurrences(text, 0);
}

/// Summarizes a unified diff: one record for each file section that names a
/// new path, in the order of the sections. The empty text has the empty
/// summary.
pub fn summarize(diff_text: &str) -> (changes: Vec<FileChange>)
    ensures
        change_views(changes@) == summary(diff_text@),
        changes@.len() <= header_count(lines(diff_text@)),
        changes@.len() <= occurrences(diff_text@, "diff --git"@),
{
    let chars = to_chars(diff_text);
    let text = chars.as_slice();
    let markers = Markers::new();
    let n = text.len();
    let mut records: Vec<FileChange> = Vec::new();
    let mut current: Option<Section> = None;
    let mut pos: usize = 0;
    assert(change_views(records@) =~= Seq::<FileChangeView>::empty());
    while pos < n
        invariant
            n == text@.len(),
            text@ == diff_text@,
            pos <= n,
            (ScanView { records: change_views(records@), current: section_view(current) }).run(
                lines_from(text@, pos as int),
            ) == ScanView::start().run(lines(text@)),
            current matches Some(section) ==> section.insertions + section.deletions <= pos,
        decreases n - pos,
    {
        let end = find_char(text, '\n', pos);
        let stop = if end < n && pos < end && text[end - 1] == '\r' {
            end - 1
        } else {
            end
        };
        let line = slice_subrange(text, pos, stop);
        proof {
            // The lines from `pos` on are this line and the lines after its
            // line ending.
            let rest = lines_from(text@, end + 1);
            assert((seq![line@] + rest).drop_first() =~= rest);
        }
        let kind = markers.classify(line);
        match kind {
            LineKind::Header => {
                close_section(&mut records, current);
                current = Some(markers.open_section(line));
            },
            _ => {
                current = match current {
                    Some(section) => Some(section.absorb_kind(&markers, kind, line)),
                    None => None,
                };
            },
        }
        if end < n {
            pos = end + 1;
        } else {
            pos = n;
        }
    }
    close_section(&mut records, current);
    proof {
        lemma_summary_bounded(diff_text@);
    }
    records
}

/// The number written in `s`, or 0 where `s` is no number.
pub open spec fn number_or_zero(s: Seq<char>) -> usize {
    match parse_number(s) {
        Some(n) => n,
        None => 0,
    }
}

/// The start and the length that a hunk range states. `S,L` states start `S`
/// and length `L`; `S` alone states start `S` and length 1; in both, what is
/// no number counts as 0. A text with more than one comma states `(0, 0)`.
pub open spec fn range_of(range: Seq<char>) -> (usize, usize) {
    let first = find_from(range, ',', 0);
    let second = find_from(range, ',', first + 1);
    if first >= range.len() {
        (number_or_zero(range), 1)
    } else if second >= range.len() {
        (
            number_or_zero(range.subrange(0, first)),
            number_or_zero(range.subrange(first + 1, range.len() as int)),
        )
    } else {
        (0, 0)
    }
}

fn parse_or_zero(s: &[char]) -> (n: usize)
    ensures
        n == number_or_zero(s@),
{
    match parse_usize(s) {
        Some(n) => n,
        None => 0,
    }
}

/// Reads the start and the length of a hunk range such as `12,7`.
pub fn parse_range(range: &str) -> (r: (usize, usize))
    ensures
        r == range_of(range@),
{
    let chars = to_chars(range);
    let text = chars.as_slice();
    let n = text.len();
    let first = find_char(text, ',', 0);
    if first >= n {
        return (parse_or_zero(text), 1);
    }
    let second = find_char(text, ',', first + 1);
    if second >= n {
        (
            parse_or_zero(slice_subrange(text, 0, first)),
            parse_or_zero(slice_subrange(text, first + 1, n)),
        )
    } else {
        (0, 0)
    }
}

} // verus!
