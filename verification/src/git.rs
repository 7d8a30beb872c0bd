//! The repository model: file entries, how `git status` flags become
//! entries, the order they are listed in, and the operations on them.
use vstd::prelude::*;

use crate::gitffi;
use crate::order::{listing_sorted, sort_listing, ties};
use crate::text::{debug_quoted, no_nul, nul_free, quoted, utf8_text};

verus! {

/// Which list a file entry belongs to.
#[derive(Debug, Clone, Copy, PartialEq, Eq, Hash, Structural)]
pub enum Section {
    Staged,
    Unstaged,
    Review,
}

/// The kind of change a file entry shows.
#[derive(Debug, Clone, Copy, PartialEq, Eq, Structural)]
pub enum Change {
    Added,
    Modified,
    Deleted,
    Renamed,
    Typechange,
    Untracked,
    Conflicted,
}

impl Change {
    pub open spec fn spec_code(self) -> char {
        match self {
            Change::Added => 'A',
            Change::Modified => 'M',
            Change::Deleted => 'D',
            Change::Renamed => 'R',
            Change::Typechange => 'T',
            Change::Untracked => '?',
            Change::Conflicted => 'U',
        }
    }

    /// The one-letter status code shown in the file list.
    pub fn code(self) -> (c: char)
        ensures
            c == self.spec_code(),
    {
        match self {
            Change::Added => 'A',
            Change::Modified => 'M',
            Change::Deleted => 'D',
            Change::Renamed => 'R',
            Change::Typechange => 'T',
            Change::Untracked => '?',
            Change::Conflicted => 'U',
        }
    }
}

/// A rendered diff: colored by the external highlighter, or plain.
#[derive(Debug)]
pub enum DiffText {
    Highlighted(String),
    Plain(String),
}

impl DiffText {
    pub open spec fn spec_text(self) -> Seq<char> {
        match self {
            DiffText::Highlighted(s) => s@,
            DiffText::Plain(s) => s@,
        }
    }

    /// The text, whichever way it was rendered.
    pub fn text(&self) -> (s: &String)
        ensures
            s@ == self.spec_text(),
    {
        match self {
            DiffText::Highlighted(s) => s,
            DiffText::Plain(s) => s,
        }
    }

    /// The highlighter's output where it produced one, else the plain patch.
    pub fn from_patch(patch: String, highlighted: Option<String>) -> (d: DiffText)
        ensures
            d == (match highlighted {
                Some(h) => DiffText::Highlighted(h),
                None => DiffText::Plain(patch),
            }),
    {
        match highlighted {
            Some(h) => DiffText::Highlighted(h),
            None => DiffText::Plain(patch),
        }
    }
}

impl Clone for DiffText {
    fn clone(&self) -> (d: Self)
        ensures
            d == *self,
    {
        match self {
            DiffText::Highlighted(s) => DiffText::Highlighted(s.clone()),
            DiffText::Plain(s) => DiffText::Plain(s.clone()),
        }
    }
}

/// One row of the file list.
#[derive(Debug)]
pub struct FileEntry {
    pub path: String,
    pub old_path: Option<String>,
    pub change: Change,
    pub section: Section,
}

/// A copy of an optional string.
pub fn copy_opt_string(o: &Option<String>) -> (r: Option<String>)
    ensures
        r == *o,
{
    match o {
        Some(s) => Some(s.clone()),
        None => None,
    }
}

impl Clone for FileEntry {
    fn clone(&self) -> (f: Self)
        ensures
            f == *self,
    {
        FileEntry {
            path: self.path.clone(),
            old_path: copy_opt_string(&self.old_path),
            change: self.change,
            section: self.section,
        }
    }
}

/// What went wrong in an operation of the library.
#[derive(Debug)]
pub enum Failure {
    /// An error reported by git, with its text.
    Git(String),
    /// The repository has no working directory.
    BareRepository,
    /// Review entries are diffed with `diff_for_review`.
    ReviewSectionDiff,
    /// A range revspec without a left side.
    MissingLeftSide(String),
    /// A range revspec without a right side.
    MissingRightSide(String),
    /// A revspec that names nothing.
    Unresolved(String),
    /// A path that cannot be handed to git: it holds a NUL character.
    NulInPath(String),
}

impl Failure {
    pub open spec fn spec_message(self) -> Seq<char> {
        match self {
            Failure::Git(m) => m@,
            Failure::BareRepository => "bare repo"@,
            Failure::ReviewSectionDiff => "review section uses diff_for_review"@,
            Failure::MissingLeftSide(s) => "revspec "@ + debug_quoted(s@) + " missing left side"@,
            Failure::MissingRightSide(s) => "revspec "@ + debug_quoted(s@) + " missing right side"@,
            Failure::Unresolved(s) => "could not resolve "@ + debug_quoted(s@),
            Failure::NulInPath(s) => "path "@ + debug_quoted(s@) + " contains a nul byte"@,
        }
    }

    /// The error's text, as it is shown to the user.
    pub fn message(&self) -> (m: String)
        ensures
            m@ == self.spec_message(),
    {
        match self {
            Failure::Git(m) => m.clone(),
            Failure::BareRepository => String::from_str("bare repo"),
            Failure::ReviewSectionDiff => String::from_str("review section uses diff_for_review"),
            Failure::MissingLeftSide(s) => {
                let mut m = String::from_str("revspec ");
                m.append(quoted(s.as_str()).as_str());
                m.append(" missing left side");
                m
            },
            Failure::MissingRightSide(s) => {
                let mut m = String::from_str("revspec ");
                m.append(quoted(s.as_str()).as_str());
                m.append(" missing right side");
                m
            },
            Failure::Unresolved(s) => {
                let mut m = String::from_str("could not resolve ");
                m.append(quoted(s.as_str()).as_str());
                m
            },
            Failure::NulInPath(s) => {
                let mut m = String::from_str("path ");
                m.append(quoted(s.as_str()).as_str());
                m.append(" contains a nul byte");
                m
            },
        }
    }
}

/// Turns an error of `git2` into one of the library.
pub(crate) fn git_failure(e: &git2::Error) -> (r: Failure)
    ensures
        r is Git,
{
    Failure::Git(gitffi::error_text(e))
}

// The status flags of libgit2 (`git_status_t`), as `git2::Status::bits` reports them.
pub const STATUS_INDEX_NEW: u32 = 0x1;
pub const STATUS_INDEX_MODIFIED: u32 = 0x2;
pub const STATUS_INDEX_DELETED: u32 = 0x4;
pub const STATUS_INDEX_RENAMED: u32 = 0x8;
pub const STATUS_INDEX_TYPECHANGE: u32 = 0x10;
pub const STATUS_WT_NEW: u32 = 0x80;
pub const STATUS_WT_MODIFIED: u32 = 0x100;
pub const STATUS_WT_DELETED: u32 = 0x200;
pub const STATUS_WT_TYPECHANGE: u32 = 0x400;
pub const STATUS_WT_RENAMED: u32 = 0x800;
pub const STATUS_CONFLICTED: u32 = 0x8000;

/// One entry of `git status`: its flag bits and its path, if that is text.
pub struct StatusRecord {
    pub bits: u32,
    pub path: Option<String>,
}

pub open spec fn flag_set(bits: u32, flag: u32) -> bool {
    bits & flag == flag
}

/// The change staged in the index, by priority of the flags.
pub open spec fn index_change_of(bits: u32) -> Option<Change> {
    if flag_set(bits, STATUS_INDEX_NEW) {
        Some(Change::Added)
    } else if flag_set(bits, STATUS_INDEX_MODIFIED) {
        Some(Change::Modified)
    } else if flag_set(bits, STATUS_INDEX_DELETED) {
        Some(Change::Deleted)
    } else if flag_set(bits, STATUS_INDEX_RENAMED) {
        Some(Change::Renamed)
    } else if flag_set(bits, STATUS_INDEX_TYPECHANGE) {
        Some(Change::Typechange)
    } else {
        None
    }
}

/// The change in the working tree, by priority of the flags.
pub open spec fn workdir_change_of(bits: u32) -> Option<Change> {
    if flag_set(bits, STATUS_WT_NEW) {
        Some(Change::Untracked)
    } else if flag_set(bits, STATUS_WT_MODIFIED) {
        Some(Change::Modified)
    } else if flag_set(bits, STATUS_WT_DELETED) {
        Some(Change::Deleted)
    } else if flag_set(bits, STATUS_WT_RENAMED) {
        Some(Change::Renamed)
    } else if flag_set(bits, STATUS_WT_TYPECHANGE) {
        Some(Change::Typechange)
    } else {
        None
    }
}

/// The staged change that the flags `s` show.
pub fn index_change(s: u32) -> (c: Option<Change>)
    ensures
        c == index_change_of(s),
{
    if s & STATUS_INDEX_NEW == STATUS_INDEX_NEW {
        Some(Change::Added)
    } else if s & STATUS_INDEX_MODIFIED == STATUS_INDEX_MODIFIED {
        Some(Change::Modified)
    } else if s & STATUS_INDEX_DELETED == STATUS_INDEX_DELETED {
        Some(Change::Deleted)
    } else if s & STATUS_INDEX_RENAMED == STATUS_INDEX_RENAMED {
        Some(Change::Renamed)
    } else if s & STATUS_INDEX_TYPECHANGE == STATUS_INDEX_TYPECHANGE {
        Some(Change::Typechange)
    } else {
        None
    }
}

/// The working-tree change that the flags `s` show.
pub fn workdir_change(s: u32) -> (c: Option<Change>)
    ensures
        c == workdir_change_of(s),
{
    if s & STATUS_WT_NEW == STATUS_WT_NEW {
        Some(Change::Untracked)
    } else if s & STATUS_WT_MODIFIED == STATUS_WT_MODIFIED {
        Some(Change::Modified)
    } else if s & STATUS_WT_DELETED == STATUS_WT_DELETED {
        Some(Change::Deleted)
    } else if s & STATUS_WT_RENAMED == STATUS_WT_RENAMED {
        Some(Change::Renamed)
    } else if s & STATUS_WT_TYPECHANGE == STATUS_WT_TYPECHANGE {
        Some(Change::Typechange)
    } else {
        None
    }
}

pub open spec fn entry_of(path: String, change: Change, section: Section) -> FileEntry {
    FileEntry { path: path, old_path: None, change: change, section: section }
}

pub open spec fn opt_entry(path: String, c: Option<Change>, section: Section) -> Seq<FileEntry> {
    match c {
        Some(c) => seq![entry_of(path, c, section)],
        None => seq![],
    }
}

/// The entries one status record stands for: a conflict is one unstaged
/// entry; otherwise a staged entry and an unstaged entry, each where the
/// flags show such a change. A record whose path is not text is skipped.
pub open spec fn record_entries(r: StatusRecord) -> Seq<FileEntry> {
    match r.path {
        None => seq![],
        Some(p) => if flag_set(r.bits, STATUS_CONFLICTED) {
            seq![entry_of(p, Change::Conflicted, Section::Unstaged)]
        } else {
            opt_entry(p, index_change_of(r.bits), Section::Staged) + opt_entry(
                p,
                workdir_change_of(r.bits),
                Section::Unstaged,
            )
        },
    }
}

/// The entries of all records, in record order.
pub open spec fn status_entries(recs: Seq<StatusRecord>) -> Seq<FileEntry>
    decreases recs.len(),
{
    if recs.len() == 0 {
        seq![]
    } else {
        status_entries(recs.drop_last()) + record_entries(recs.last())
    }
}

/// `out` is the listing of the status records `recs`: their entries,
/// ordered by section and then by path, entries in the same place keeping
/// the records' order.
pub open spec fn status_listing(recs: Seq<StatusRecord>, out: Seq<FileEntry>) -> bool {
    &&& listing_sorted(out)
    &&& out.to_multiset() == status_entries(recs).to_multiset()
    &&& forall|f: FileEntry| #[trigger] out.filter(ties(f)) == status_entries(recs).filter(ties(f))
}

/// The file list for the records that `git status` reported.
pub fn listing_from_statuses(recs: &Vec<StatusRecord>) -> (out: Vec<FileEntry>)
    ensures
        status_listing(recs@, out@),
{
    let mut entries: Vec<FileEntry> = Vec::new();
    for i in 0..recs.len()
        invariant
            entries@ == status_entries(recs@.take(i as int)),
    {
        let ghost before = entries@;
        let r = &recs[i];
        match &r.path {
            None => {},
            Some(p) => {
                if r.bits & STATUS_CONFLICTED == STATUS_CONFLICTED {
                    entries.push(
                        FileEntry {
                            path: p.clone(),
                            old_path: None,
                            change: Change::Conflicted,
                            section: Section::Unstaged,
                        },
                    );
                } else {
                    match index_change(r.bits) {
                        Some(c) => entries.push(
                            FileEntry {
                                path: p.clone(),
                                old_path: None,
                                change: c,
                                section: Section::Staged,
                            },
                        ),
                        None => {},
                    }
                    match workdir_change(r.bits) {
                        Some(c) => entries.push(
                            FileEntry {
                                path: p.clone(),
                                old_path: None,
                                change: c,
                                section: Section::Unstaged,
                            },
                        ),
                        None => {},
                    }
                }
            },
        }
        assert(recs@.take(i + 1).drop_last() =~= recs@.take(i as int));
        assert(entries@ =~= before + record_entries(recs@[i as int]));
    }
    assert(recs@.take(recs.len() as int) =~= recs@);
    sort_listing(entries)
}

} // verus!

verus! {

/// One line of a patch as `git2` prints it: its origin marker and its bytes.
pub struct PatchLine {
    pub origin: char,
    pub content: Vec<u8>,
}

/// Origins that are kept in front of a line: added, removed, context.
pub open spec fn origin_shown(c: char) -> bool {
    c == '+' || c == '-' || c == ' '
}

/// The text a patch line contributes: its origin where that is shown, then
/// its content where that is valid UTF-8.
pub open spec fn line_text(l: PatchLine) -> Seq<char> {
    (if origin_shown(l.origin) {
        seq![l.origin]
    } else {
        seq![]
    }) + (if vstd::utf8::valid_utf8(l.content@) {
        vstd::utf8::decode_utf8(l.content@)
    } else {
        seq![]
    })
}

pub open spec fn patch_text(ls: Seq<PatchLine>) -> Seq<char>
    decreases ls.len(),
{
    if ls.len() == 0 {
        seq![]
    } else {
        patch_text(ls.drop_last()) + line_text(ls.last())
    }
}

/// The patch text of the printed lines.
pub fn render_patch(lines: &Vec<PatchLine>) -> (out: String)
    ensures
        out@ == patch_text(lines@),
{
    let mut out = String::new();
    for i in 0..lines.len()
        invariant
            out@ == patch_text(lines@.take(i as int)),
    {
        let ghost before = out@;
        let l = &lines[i];
        if l.origin == '+' || l.origin == '-' || l.origin == ' ' {
            out.push(l.origin);
        }
        match utf8_text(l.content.as_slice()) {
            Some(t) => out.append(t.as_str()),
            None => {},
        }
        assert(lines@.take(i + 1).drop_last() =~= lines@.take(i as int));
        assert(out@ =~= before + line_text(lines@[i as int]));
    }
    assert(lines@.take(lines.len() as int) =~= lines@);
    out
}

/// The status of a delta between two trees (`git2::Delta`).
#[derive(Debug, Clone, Copy, PartialEq, Eq, Structural)]
pub enum DeltaKind {
    Unmodified,
    Added,
    Deleted,
    Modified,
    Renamed,
    Copied,
    Ignored,
    Untracked,
    Typechange,
    Unreadable,
    Conflicted,
}

/// One delta between two trees: its status and its paths.
pub struct DeltaRecord {
    pub status: DeltaKind,
    pub new_path: Option<String>,
    pub old_path: Option<String>,
}

/// The change a delta is shown as; `None` for deltas that are not listed.
pub open spec fn delta_change(k: DeltaKind) -> Option<Change> {
    match k {
        DeltaKind::Added => Some(Change::Added),
        DeltaKind::Deleted => Some(Change::Deleted),
        DeltaKind::Modified => Some(Change::Modified),
        DeltaKind::Renamed => Some(Change::Renamed),
        DeltaKind::Typechange => Some(Change::Typechange),
        DeltaKind::Copied => Some(Change::Modified),
        _ => None,
    }
}

/// The path a delta is listed under: the old one for a deletion, else the new
/// one (or the old one where there is no new one).
pub open spec fn delta_path(d: DeltaRecord) -> Option<String> {
    if d.status == DeltaKind::Deleted {
        d.old_path
    } else {
        match d.new_path {
            Some(p) => Some(p),
            None => d.old_path,
        }
    }
}

/// The former path shown for a rename or copy, where it differs from the new one.
pub open spec fn delta_old_path(d: DeltaRecord) -> Option<String> {
    if d.status == DeltaKind::Renamed || d.status == DeltaKind::Copied {
        match d.old_path {
            Some(o) => if (d.new_path matches Some(n) && n@ == o@) {
                None
            } else {
                Some(o)
            },
            None => None,
        }
    } else {
        None
    }
}

/// The review entry of a delta, if it is listed.
pub open spec fn delta_entry(d: DeltaRecord) -> Option<FileEntry> {
    match (delta_change(d.status), delta_path(d)) {
        (Some(c), Some(p)) => Some(
            FileEntry { path: p, old_path: delta_old_path(d), change: c, section: Section::Review },
        ),
        _ => None,
    }
}

pub open spec fn review_entries(ds: Seq<DeltaRecord>) -> Seq<FileEntry>
    decreases ds.len(),
{
    if ds.len() == 0 {
        seq![]
    } else {
        review_entries(ds.drop_last()) + match delta_entry(ds.last()) {
            Some(e) => seq![e],
            None => seq![],
        }
    }
}

/// `out` is the review listing of the deltas `ds`: their entries, ordered by
/// path, entries with the same path keeping the deltas' order.
pub open spec fn review_listing(ds: Seq<DeltaRecord>, out: Seq<FileEntry>) -> bool {
    &&& listing_sorted(out)
    &&& out.to_multiset() == review_entries(ds).to_multiset()
    &&& forall|f: FileEntry| #[trigger] out.filter(ties(f)) == review_entries(ds).filter(ties(f))
}

/// The review entry of one delta.
pub fn entry_for_delta(d: &DeltaRecord) -> (r: Option<FileEntry>)
    ensures
        r == delta_entry(*d),
{
    let change = match d.status {
        DeltaKind::Added => Change::Added,
        DeltaKind::Deleted => Change::Deleted,
        DeltaKind::Modified => Change::Modified,
        DeltaKind::Renamed => Change::Renamed,
        DeltaKind::Typechange => Change::Typechange,
        DeltaKind::Copied => Change::Modified,
        _ => {
            return None;
        },
    };
    let path = if d.status == DeltaKind::Deleted {
        match &d.old_path {
            Some(p) => p.clone(),
            None => {
                return None;
            },
        }
    } else {
        match &d.new_path {
            Some(p) => p.clone(),
            None => match &d.old_path {
                Some(p) => p.clone(),
                None => {
                    return None;
                },
            },
        }
    };
    let old_path = if d.status == DeltaKind::Renamed || d.status == DeltaKind::Copied {
        match &d.old_path {
            Some(o) => {
                let same = match &d.new_path {
                    Some(n) => n.eq(o),
                    None => false,
                };
                if same {
                    None
                } else {
                    Some(o.clone())
                }
            },
            None => None,
        }
    } else {
        None
    };
    Some(FileEntry { path, old_path, change, section: Section::Review })
}

/// The file list for the deltas between two trees.
pub fn listing_from_deltas(ds: &Vec<DeltaRecord>) -> (out: Vec<FileEntry>)
    ensures
        review_listing(ds@, out@),
{
    let mut entries: Vec<FileEntry> = Vec::new();
    for i in 0..ds.len()
        invariant
            entries@ == review_entries(ds@.take(i as int)),
    {
        let ghost before = entries@;
        match entry_for_delta(&ds[i]) {
            Some(e) => entries.push(e),
            None => {},
        }
        assert(ds@.take(i + 1).drop_last() =~= ds@.take(i as int));
        assert(entries@ =~= before + match delta_entry(ds@[i as int]) {
            Some(e) => seq![e],
            None => seq![],
        });
    }
    assert(ds@.take(ds.len() as int) =~= ds@);
    sort_listing(entries)
}

/// The deltas of a diff, with their status as a `DeltaKind`.
fn delta_records(diff: &git2::Diff<'_>) -> Vec<DeltaRecord> {
    let raw = gitffi::diff_deltas(diff);
    let mut out: Vec<DeltaRecord> = Vec::new();
    for i in 0..raw.len() {
        out.push(
            DeltaRecord {
                status: gitffi::delta_kind(raw[i].0),
                new_path: copy_opt_string(&raw[i].1),
                old_path: copy_opt_string(&raw[i].2),
            },
        );
    }
    out
}

/// Opens the repository that holds the current directory.
pub fn open_repo() -> (r: Result<git2::Repository, Failure>)
    ensures
        r matches Err(e) ==> e is Git,
{
    match gitffi::discover_repo(".") {
        Ok(repo) => Ok(repo),
        Err(e) => Err(git_failure(&e)),
    }
}

/// The working-tree file list: staged and unstaged changes (untracked files
/// and renames included), ordered by section and path.
pub fn load_status(repo: &git2::Repository) -> (r: Result<Vec<FileEntry>, Failure>)
    ensures
        match r {
            Ok(v) => exists|recs: Seq<StatusRecord>| #![trigger status_entries(recs)] status_listing(recs, v@),
            Err(e) => e is Git,
        },
{
    match gitffi::repo_statuses(repo, status_switches()) {
        Ok(recs) => {
            let v = listing_from_statuses(&recs);
            assert(status_listing(recs@, v@));
            Ok(v)
        },
        Err(e) => Err(git_failure(&e)),
    }
}

/// How the index is changed to stage a file.
#[derive(Debug, Clone, Copy, PartialEq, Eq, Structural)]
pub enum IndexOp {
    Add,
    Remove,
}

pub open spec fn stage_op_of(c: Change) -> IndexOp {
    if c == Change::Deleted {
        IndexOp::Remove
    } else {
        IndexOp::Add
    }
}

/// A deletion is staged by removing the path from the index; anything else by adding it.
pub fn stage_op(change: Change) -> (op: IndexOp)
    ensures
        op == stage_op_of(change),
{
    if change == Change::Deleted {
        IndexOp::Remove
    } else {
        IndexOp::Add
    }
}

/// Stages the change of `path` and writes the index.
pub fn stage(repo: &git2::Repository, path: &str, change: Change) -> (r: Result<(), Failure>)
    ensures
        r matches Err(e) ==> e is Git,
{
    let mut index = match gitffi::repo_index(repo) {
        Ok(i) => i,
        Err(e) => {
            return Err(git_failure(&e));
        },
    };
    let res = match stage_op(change) {
        IndexOp::Remove => gitffi::index_remove_path(&mut index, path),
        IndexOp::Add => gitffi::index_add_path(&mut index, path),
    };
    if let Err(e) = res {
        return Err(git_failure(&e));
    }
    match gitffi::index_write(&mut index) {
        Ok(()) => Ok(()),
        Err(e) => Err(git_failure(&e)),
    }
}

/// What is left to do to discard a change.
#[derive(Debug)]
pub enum DiscardPlan {
    /// An untracked file or directory: this path, relative to the working
    /// directory, is removed from the working tree.
    RemoveUntracked { path: String },
    /// A tracked file: it was restored from the index.
    CheckedOut,
}

/// Discards the unstaged change of `path`: a tracked file is restored from
/// the index here (a forced checkout limited to `path`); for an untracked one
/// the plan names what to remove.
pub fn discard(repo: &git2::Repository, path: &str, change: Change) -> (r: Result<
    DiscardPlan,
    Failure,
>)
    requires
        change != Change::Untracked ==> nul_free(path@),
    ensures
        change == Change::Untracked ==> match r {
            Ok(DiscardPlan::RemoveUntracked { path: p }) => p@ == path@,
            Ok(DiscardPlan::CheckedOut) => false,
            Err(e) => e is BareRepository,
        },
        change != Change::Untracked ==> match r {
            Ok(plan) => plan is CheckedOut,
            Err(e) => e is Git,
        },
{
    if change == Change::Untracked {
        if gitffi::repo_has_workdir(repo) {
            Ok(DiscardPlan::RemoveUntracked { path: String::from_str(path) })
        } else {
            Err(Failure::BareRepository)
        }
    } else {
        match gitffi::checkout_index_path(repo, path) {
            Ok(()) => Ok(DiscardPlan::CheckedOut),
            Err(e) => Err(git_failure(&e)),
        }
    }
}

/// How a diff treats untracked files.
#[derive(Debug, Clone, Copy, PartialEq, Eq, Structural)]
pub struct UntrackedSwitches {
    pub listed: bool,
    pub recurse: bool,
    pub content: bool,
}

/// File diffs show untracked files, inside untracked directories too, with their content.
pub fn show_untracked() -> (u: UntrackedSwitches)
    ensures
        u.listed && u.recurse && u.content,
{
    UntrackedSwitches { listed: true, recurse: true, content: true }
}

/// What `git status` is asked to report.
#[derive(Debug, Clone, Copy, PartialEq, Eq, Structural)]
pub struct StatusSwitches {
    pub untracked: bool,
    pub recurse_untracked: bool,
    pub renames_head_to_index: bool,
    pub renames_index_to_workdir: bool,
}

/// The switches the file list asks `git status` with: untracked files,
/// inside untracked directories too, and renames both in the index and in
/// the working tree.
pub open spec fn listing_status(s: StatusSwitches) -> bool {
    s.untracked && s.recurse_untracked && s.renames_head_to_index && s.renames_index_to_workdir
}

/// The switches a file diff is taken with: untracked files listed, inside
/// untracked directories too, with their content.
pub open spec fn file_diff_untracked(u: UntrackedSwitches) -> bool {
    u.listed && u.recurse && u.content
}

/// The switches a review diff pairs files with: renames, not copies.
pub open spec fn review_pairing(s: SimilarSwitches) -> bool {
    s.renames && !s.copies
}

/// The file list reports untracked files, inside untracked directories too,
/// and detects renames both in the index and in the working tree.
pub fn status_switches() -> (s: StatusSwitches)
    ensures
        s.untracked && s.recurse_untracked && s.renames_head_to_index && s.renames_index_to_workdir,
        listing_status(s),
{
    StatusSwitches {
        untracked: true,
        recurse_untracked: true,
        renames_head_to_index: true,
        renames_index_to_workdir: true,
    }
}

/// Which similar files a diff between trees pairs up.
#[derive(Debug, Clone, Copy, PartialEq, Eq, Structural)]
pub struct SimilarSwitches {
    pub renames: bool,
    pub copies: bool,
}

/// Reviews detect renames, not copies.
pub fn review_similarity() -> (s: SimilarSwitches)
    ensures
        s.renames && !s.copies,
        review_pairing(s),
{
    SimilarSwitches { renames: true, copies: false }
}

/// Which two states a file diff compares.
#[derive(Debug, Clone, Copy, PartialEq, Eq, Structural)]
pub enum DiffSide {
    /// HEAD's tree (none before the first commit) against the index.
    HeadToIndex,
    /// The index against the working tree.
    IndexToWorkdir,
}

/// A staged entry is diffed from HEAD to the index, an unstaged one from the
/// index to the working tree; review entries are diffed between trees.
pub fn diff_side(section: Section) -> (r: Result<DiffSide, Failure>)
    ensures
        section == Section::Staged ==> r == Ok::<DiffSide, Failure>(DiffSide::HeadToIndex),
        section == Section::Unstaged ==> r == Ok::<DiffSide, Failure>(DiffSide::IndexToWorkdir),
        section == Section::Review ==> r matches Err(Failure::ReviewSectionDiff),
{
    match section {
        Section::Staged => Ok(DiffSide::HeadToIndex),
        Section::Unstaged => Ok(DiffSide::IndexToWorkdir),
        Section::Review => Err(Failure::ReviewSectionDiff),
    }
}

/// The commit HEAD points to, if it resolves to one.
fn head_commit<'r>(repo: &'r git2::Repository) -> Option<git2::Commit<'r>> {
    match gitffi::repo_head(repo) {
        Ok(h) => match gitffi::reference_peel_to_commit(&h) {
            Ok(c) => Some(c),
            Err(_) => None,
        },
        Err(_) => None,
    }
}

/// The tree HEAD points to, if it resolves to one.
fn head_tree<'r>(repo: &'r git2::Repository) -> Option<git2::Tree<'r>> {
    match gitffi::repo_head(repo) {
        Ok(h) => match gitffi::reference_peel_to_tree(&h) {
            Ok(t) => Some(t),
            Err(_) => None,
        },
        Err(_) => None,
    }
}

/// The short name of the branch HEAD is on, or `HEAD` where there is none.
pub fn branch_name(repo: &git2::Repository) -> String {
    let short = match gitffi::repo_head(repo) {
        Ok(h) => gitffi::reference_shorthand(&h),
        Err(_) => None,
    };
    name_or_head(short)
}

/// The branch name where there is one, else `HEAD`.
pub fn name_or_head(short: Option<String>) -> (name: String)
    ensures
        name@ == (match short {
            Some(s) => s@,
            None => "HEAD"@,
        }),
{
    match short {
        Some(s) => s,
        None => String::from_str("HEAD"),
    }
}

/// Unstages `path`: resets its index entry to HEAD, or, before the first
/// commit, removes it from the index.
pub fn unstage(repo: &git2::Repository, path: &str) -> (r: Result<(), Failure>)
    ensures
        r matches Err(e) ==> e is Git,
{
    match head_commit(repo) {
        Some(commit) => match gitffi::reset_default_path(repo, &commit, path) {
            Ok(()) => Ok(()),
            Err(e) => Err(git_failure(&e)),
        },
        None => {
            let mut index = match gitffi::repo_index(repo) {
                Ok(i) => i,
                Err(e) => {
                    return Err(git_failure(&e));
                },
            };
            if let Err(e) = gitffi::index_remove_path(&mut index, path) {
                return Err(git_failure(&e));
            }
            match gitffi::index_write(&mut index) {
                Ok(()) => Ok(()),
                Err(e) => Err(git_failure(&e)),
            }
        },
    }
}

/// The patch of one file: for a staged entry between HEAD and the index, for
/// an unstaged one between the index and the working tree.
pub fn diff_for(repo: &git2::Repository, path: &str, section: Section) -> (r: Result<
    String,
    Failure,
>)
    requires
        section != Section::Review ==> nul_free(path@),
    ensures
        section == Section::Review ==> r matches Err(Failure::ReviewSectionDiff),
        section != Section::Review ==> match r {
            Ok(s) => exists|ls: Seq<PatchLine>| #[trigger] patch_text(ls) == s@,
            Err(e) => e is Git,
        },
{
    let d = match diff_side(section)? {
        DiffSide::HeadToIndex => {
            let tree = head_tree(repo);
            match &tree {
                Some(t) => gitffi::diff_tree_to_index(repo, Some(t), path, show_untracked()),
                None => gitffi::diff_tree_to_index(repo, None, path, show_untracked()),
            }
        },
        DiffSide::IndexToWorkdir => gitffi::diff_index_to_workdir(repo, path, show_untracked()),
    };
    let diff = match d {
        Ok(d) => d,
        Err(e) => {
            return Err(git_failure(&e));
        },
    };
    let lines = gitffi::diff_patch_lines(&diff);
    let s = render_patch(&lines);
    assert(patch_text(lines@) == s@);
    Ok(s)
}

/// The pathspecs a review diff is limited to: the entry's path, and its former path if it has one.
pub fn review_pathspecs(file: &FileEntry) -> (specs: Vec<String>)
    ensures
        specs@ == (match file.old_path {
            Some(o) => seq![file.path, o],
            None => seq![file.path],
        }),
{
    let mut specs: Vec<String> = Vec::new();
    specs.push(file.path.clone());
    match &file.old_path {
        Some(o) => specs.push(o.clone()),
        None => {},
    }
    specs
}

/// The patch of one review entry between the trees `left` and `right`,
/// with renames detected.
pub fn diff_for_review(
    repo: &git2::Repository,
    file: &FileEntry,
    left: git2::Oid,
    right: git2::Oid,
) -> (r: Result<String, Failure>)
    requires
        nul_free(file.path@),
        file.old_path matches Some(o) ==> nul_free(o@),
    ensures
        match r {
            Ok(s) => exists|ls: Seq<PatchLine>| #[trigger] patch_text(ls) == s@,
            Err(e) => e is Git,
        },
{
    let left_tree = match gitffi::find_tree(repo, left) {
        Ok(t) => t,
        Err(e) => {
            return Err(git_failure(&e));
        },
    };
    let right_tree = match gitffi::find_tree(repo, right) {
        Ok(t) => t,
        Err(e) => {
            return Err(git_failure(&e));
        },
    };
    let specs = review_pathspecs(file);
    assert forall|k: int| 0 <= k < specs@.len() implies nul_free(#[trigger] specs@[k]@) by {}
    let mut diff = match gitffi::diff_tree_to_tree(repo, &left_tree, &right_tree, &specs) {
        Ok(d) => d,
        Err(e) => {
            return Err(git_failure(&e));
        },
    };
    if let Err(e) = gitffi::diff_find_similar(&mut diff, review_similarity()) {
        return Err(git_failure(&e));
    }
    let lines = gitffi::diff_patch_lines(&diff);
    let s = render_patch(&lines);
    assert(patch_text(lines@) == s@);
    Ok(s)
}

// The revparse modes of libgit2 (`git_revspec_t`), as `git2::RevparseMode::bits` reports them.
pub const REVPARSE_RANGE: u32 = 0x2;
pub const REVPARSE_MERGE_BASE: u32 = 0x4;

/// A parsed revspec: its mode bits and its endpoints.
pub struct RevspecParts<'r> {
    pub mode: u32,
    pub from: Option<git2::Object<'r>>,
    pub to: Option<git2::Object<'r>>,
}

/// Which two trees a revspec compares.
#[derive(Debug, Clone, Copy, PartialEq, Eq, Structural)]
pub enum RevShape {
    /// `a...b`: the merge base of `a` and `b` against `b`.
    MergeBase,
    /// `a..b`: `a` against `b`.
    Range,
    /// One commit against its first parent.
    Single,
}

/// Why a revspec names no pair of trees.
#[derive(Debug, Clone, Copy, PartialEq, Eq, Structural)]
pub enum RevProblem {
    MissingLeft,
    MissingRight,
    Unresolved,
}

pub open spec fn rev_shape_of(mode: u32, has_from: bool, has_to: bool) -> Result<RevShape, RevProblem> {
    if flag_set(mode, REVPARSE_MERGE_BASE) || flag_set(mode, REVPARSE_RANGE) {
        if !has_from {
            Err(RevProblem::MissingLeft)
        } else if !has_to {
            Err(RevProblem::MissingRight)
        } else if flag_set(mode, REVPARSE_MERGE_BASE) {
            Ok(RevShape::MergeBase)
        } else {
            Ok(RevShape::Range)
        }
    } else if !has_from {
        Err(RevProblem::Unresolved)
    } else {
        Ok(RevShape::Single)
    }
}

/// The shape of a parsed revspec, from its mode and which endpoints it has.
pub fn rev_shape(mode: u32, has_from: bool, has_to: bool) -> (r: Result<RevShape, RevProblem>)
    ensures
        r == rev_shape_of(mode, has_from, has_to),
{
    let merge = mode & REVPARSE_MERGE_BASE == REVPARSE_MERGE_BASE;
    let range = mode & REVPARSE_RANGE == REVPARSE_RANGE;
    if merge || range {
        if !has_from {
            Err(RevProblem::MissingLeft)
        } else if !has_to {
            Err(RevProblem::MissingRight)
        } else if merge {
            Ok(RevShape::MergeBase)
        } else {
            Ok(RevShape::Range)
        }
    } else if !has_from {
        Err(RevProblem::Unresolved)
    } else {
        Ok(RevShape::Single)
    }
}

/// The failure reported for a revspec problem.
pub fn rev_problem_failure(p: RevProblem, spec: &str) -> (f: Failure)
    ensures
        match p {
            RevProblem::MissingLeft => f matches Failure::MissingLeftSide(s) && s@ == spec@,
            RevProblem::MissingRight => f matches Failure::MissingRightSide(s) && s@ == spec@,
            RevProblem::Unresolved => f matches Failure::Unresolved(s) && s@ == spec@,
        },
{
    match p {
        RevProblem::MissingLeft => Failure::MissingLeftSide(String::from_str(spec)),
        RevProblem::MissingRight => Failure::MissingRightSide(String::from_str(spec)),
        RevProblem::Unresolved => Failure::Unresolved(String::from_str(spec)),
    }
}

/// A failure of resolving `spec`: from git, or about `spec` itself.
pub open spec fn spec_failure(e: Failure, spec: Seq<char>) -> bool {
    ||| e is Git
    ||| (e matches Failure::MissingLeftSide(s) && s@ == spec)
    ||| (e matches Failure::MissingRightSide(s) && s@ == spec)
    ||| (e matches Failure::Unresolved(s) && s@ == spec)
}

fn peel(o: &git2::Object<'_>) -> (r: Result<git2::Oid, Failure>)
    ensures
        r matches Err(e) ==> e is Git,
{
    match gitffi::object_peel_to_commit(o) {
        Ok(c) => Ok(gitffi::commit_tree_id(&c)),
        Err(e) => Err(git_failure(&e)),
    }
}

/// The id of the empty tree.
pub fn empty_tree_oid(repo: &git2::Repository) -> (r: Result<git2::Oid, Failure>)
    ensures
        r matches Err(e) ==> e is Git,
{
    match gitffi::write_empty_tree(repo) {
        Ok(id) => Ok(id),
        Err(e) => Err(git_failure(&e)),
    }
}

/// The trees a review compares, from the shape of its revspec and the trees
/// of the commits involved: `from` is the tree of the left (or only) commit,
/// `to` that of the right one, `base` that of their merge base, `parent` that
/// of the only commit's first parent (`None` for a root commit) and `empty`
/// the empty tree. `None` where a tree the shape needs is missing.
pub open spec fn review_pair_of(
    shape: RevShape,
    from: Option<git2::Oid>,
    to: Option<git2::Oid>,
    base: Option<git2::Oid>,
    parent: Option<git2::Oid>,
    empty: Option<git2::Oid>,
) -> Option<(git2::Oid, git2::Oid)> {
    match shape {
        RevShape::MergeBase => match (base, to) {
            (Some(b), Some(t)) => Some((b, t)),
            _ => None,
        },
        RevShape::Range => match (from, to) {
            (Some(f), Some(t)) => Some((f, t)),
            _ => None,
        },
        RevShape::Single => match (parent, from, empty) {
            (Some(p), Some(f), _) => Some((p, f)),
            (None, Some(f), Some(e)) => Some((e, f)),
            _ => None,
        },
    }
}

/// Which two trees a review compares: `a...b` the merge base against `b`,
/// `a..b` `a` against `b`, a single commit its first parent (or, for a root
/// commit, the empty tree) against itself.
pub fn review_pair(
    shape: RevShape,
    from: Option<git2::Oid>,
    to: Option<git2::Oid>,
    base: Option<git2::Oid>,
    parent: Option<git2::Oid>,
    empty: Option<git2::Oid>,
) -> (r: Option<(git2::Oid, git2::Oid)>)
    ensures
        r == review_pair_of(shape, from, to, base, parent, empty),
{
    match shape {
        RevShape::MergeBase => match (base, to) {
            (Some(b), Some(t)) => Some((b, t)),
            _ => None,
        },
        RevShape::Range => match (from, to) {
            (Some(f), Some(t)) => Some((f, t)),
            _ => None,
        },
        RevShape::Single => match (parent, from, empty) {
            (Some(p), Some(f), _) => Some((p, f)),
            (None, Some(f), Some(e)) => Some((e, f)),
            _ => None,
        },
    }
}

/// The two trees a review of `spec` compares: `a...b` from the merge base of
/// `a` and `b` to `b`, `a..b` from `a` to `b`, and a single commit from its
/// first parent (or the empty tree) to itself, as `review_pair` picks them.
pub fn resolve_review_trees(repo: &git2::Repository, spec: &str) -> (r: Result<
    (git2::Oid, git2::Oid),
    Failure,
>)
    ensures
        r matches Err(e) ==> spec_failure(e, spec@),
{
    let rs = match gitffi::revparse(repo, spec) {
        Ok(rs) => rs,
        Err(e) => {
            return Err(git_failure(&e));
        },
    };
    let shape = match rev_shape(rs.mode, rs.from.is_some(), rs.to.is_some()) {
        Ok(s) => s,
        Err(p) => {
            return Err(rev_problem_failure(p, spec));
        },
    };
    let mut from_tree: Option<git2::Oid> = None;
    let mut to_tree: Option<git2::Oid> = None;
    let mut base_tree: Option<git2::Oid> = None;
    let mut parent_tree: Option<git2::Oid> = None;
    let mut empty_tree: Option<git2::Oid> = None;
    match (shape, &rs.from, &rs.to) {
        (RevShape::MergeBase, Some(from), Some(to)) => {
            let from_commit = match gitffi::object_peel_to_commit(from) {
                Ok(c) => c,
                Err(e) => {
                    return Err(git_failure(&e));
                },
            };
            let to_commit = match gitffi::object_peel_to_commit(to) {
                Ok(c) => c,
                Err(e) => {
                    return Err(git_failure(&e));
                },
            };
            let base = match gitffi::merge_base(
                repo,
                gitffi::commit_id(&from_commit),
                gitffi::commit_id(&to_commit),
            ) {
                Ok(b) => b,
                Err(e) => {
                    return Err(git_failure(&e));
                },
            };
            let base_commit = match gitffi::find_commit(repo, base) {
                Ok(c) => c,
                Err(e) => {
                    return Err(git_failure(&e));
                },
            };
            base_tree = Some(gitffi::commit_tree_id(&base_commit));
            to_tree = Some(gitffi::commit_tree_id(&to_commit));
        },
        (RevShape::Range, Some(from), Some(to)) => {
            from_tree = Some(peel(from)?);
            to_tree = Some(peel(to)?);
        },
        (_, Some(only), _) => {
            let commit = match gitffi::object_peel_to_commit(only) {
                Ok(c) => c,
                Err(e) => {
                    return Err(git_failure(&e));
                },
            };
            from_tree = Some(gitffi::commit_tree_id(&commit));
            if gitffi::commit_parent_count(&commit) > 0 {
                match gitffi::commit_parent(&commit, 0) {
                    Ok(p) => {
                        parent_tree = Some(gitffi::commit_tree_id(&p));
                    },
                    Err(e) => {
                        return Err(git_failure(&e));
                    },
                }
            } else {
                empty_tree = Some(empty_tree_oid(repo)?);
            }
        },
        _ => {},
    }
    match review_pair(shape, from_tree, to_tree, base_tree, parent_tree, empty_tree) {
        Some(pair) => Ok(pair),
        None => Err(rev_problem_failure(RevProblem::Unresolved, spec)),
    }
}

/// The review file list for `spec`, with the two trees it compares: every
/// added, deleted, modified, renamed, copied or retyped path, ordered by path.
pub fn load_review(repo: &git2::Repository, spec: &str) -> (r: Result<
    (git2::Oid, git2::Oid, Vec<FileEntry>),
    Failure,
>)
    ensures
        match r {
            Ok((_, _, v)) => exists|ds: Seq<DeltaRecord>| #![trigger review_entries(ds)] review_listing(ds, v@),
            Err(e) => spec_failure(e, spec@),
        },
{
    let (left_id, right_id) = resolve_review_trees(repo, spec)?;
    load_review_between(repo, left_id, right_id)
}

/// The review file list between the trees `left` and `right`, with renames
/// detected (copies not), handed back with the two trees as given.
pub fn load_review_between(repo: &git2::Repository, left: git2::Oid, right: git2::Oid) -> (r: Result<
    (git2::Oid, git2::Oid, Vec<FileEntry>),
    Failure,
>)
    ensures
        match r {
            Ok((l, rt, v)) => {
                &&& l == left
                &&& rt == right
                &&& exists|ds: Seq<DeltaRecord>| #![trigger review_entries(ds)] review_listing(ds, v@)
            },
            Err(e) => e is Git,
        },
{
    let left_tree = match gitffi::find_tree(repo, left) {
        Ok(t) => t,
        Err(e) => {
            return Err(git_failure(&e));
        },
    };
    let right_tree = match gitffi::find_tree(repo, right) {
        Ok(t) => t,
        Err(e) => {
            return Err(git_failure(&e));
        },
    };
    let no_specs: Vec<String> = Vec::new();
    let mut diff = match gitffi::diff_tree_to_tree(repo, &left_tree, &right_tree, &no_specs) {
        Ok(d) => d,
        Err(e) => {
            return Err(git_failure(&e));
        },
    };
    if let Err(e) = gitffi::diff_find_similar(&mut diff, review_similarity()) {
        return Err(git_failure(&e));
    }
    let deltas = delta_records(&diff);
    let v = listing_from_deltas(&deltas);
    assert(review_listing(deltas@, v@));
    Ok((left, right, v))
}

} // verus!
