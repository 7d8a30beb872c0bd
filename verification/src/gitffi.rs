//! Trusted boundary to the `git2` crate.
//!
//! Every function here is a thin wrapper around one `git2` entry point. What
//! they return depends on the repository on disk, so their contracts promise
//! nothing about the values handed back; the verified code around them states
//! what holds for every outcome.
use vstd::prelude::*;

use crate::git::{
    file_diff_untracked, listing_status, review_pairing, DeltaKind, PatchLine, RevspecParts, SimilarSwitches, StatusRecord, StatusSwitches,
    UntrackedSwitches,
};
use crate::text::nul_free;

verus! {

#[verifier::external_type_specification]
#[verifier::external_body]
pub struct ExRepository(git2::Repository);

#[verifier::external_type_specification]
#[verifier::external_body]
pub struct ExGitError(git2::Error);

#[verifier::external_type_specification]
#[verifier::external_body]
pub struct ExOid(git2::Oid);

#[verifier::external_type_specification]
#[verifier::external_body]
pub struct ExIndex(git2::Index);

#[verifier::external_type_specification]
#[verifier::external_body]
pub struct ExReference<'r>(git2::Reference<'r>);

#[verifier::external_type_specification]
#[verifier::external_body]
pub struct ExCommit<'r>(git2::Commit<'r>);

#[verifier::external_type_specification]
#[verifier::external_body]
pub struct ExTree<'r>(git2::Tree<'r>);

#[verifier::external_type_specification]
#[verifier::external_body]
pub struct ExObject<'r>(git2::Object<'r>);

#[verifier::external_type_specification]
#[verifier::external_body]
pub struct ExDiff<'r>(git2::Diff<'r>);

#[verifier::external_type_specification]
#[verifier::external_body]
pub struct ExDelta(git2::Delta);

/// The `Display` text of a `git2::Error` (its message, class and code).
/// Nothing is promised of it.
#[verifier::external_body]
pub(crate) fn error_text(e: &git2::Error) -> String {
    e.to_string()
}

/// `git2::Repository::discover`: opens the repository that holds `path`.
#[verifier::external_body]
pub(crate) fn discover_repo(path: &str) -> Result<git2::Repository, git2::Error> {
    git2::Repository::discover(path)
}

/// `git2::Repository::statuses` with `StatusOptions` set from `switches`; each
/// entry is handed back as its raw flag bits (`Status::bits`) and its path
/// (`StatusEntry::path`, `None` where the path is not UTF-8). The library
/// asks for status only with the switches of its file list.
#[verifier::external_body]
pub(crate) fn repo_statuses(
    repo: &git2::Repository,
    switches: StatusSwitches,
) -> Result<Vec<StatusRecord>, git2::Error>
    requires
        listing_status(switches),
{
    let mut opts = git2::StatusOptions::new();
    opts.include_untracked(switches.untracked).recurse_untracked_dirs(switches.recurse_untracked)
        .renames_head_to_index(switches.renames_head_to_index)
        .renames_index_to_workdir(switches.renames_index_to_workdir);
    let statuses = repo.statuses(Some(&mut opts))?;
    Ok(statuses.iter().map(|e| StatusRecord {
        bits: e.status().bits(),
        path: e.path().map(String::from),
    }).collect())
}

/// `git2::Repository::index`: the repository's index.
#[verifier::external_body]
pub(crate) fn repo_index(repo: &git2::Repository) -> Result<git2::Index, git2::Error> {
    repo.index()
}

/// `git2::Index::add_path`: stages the working-tree file at `path`.
#[verifier::external_body]
pub(crate) fn index_add_path(index: &mut git2::Index, path: &str) -> Result<(), git2::Error> {
    index.add_path(std::path::Path::new(path))
}

/// `git2::Index::remove_path`: drops `path` from the index.
#[verifier::external_body]
pub(crate) fn index_remove_path(index: &mut git2::Index, path: &str) -> Result<(), git2::Error> {
    index.remove_path(std::path::Path::new(path))
}

/// `git2::Index::write`: writes the in-memory index back to disk.
#[verifier::external_body]
pub(crate) fn index_write(index: &mut git2::Index) -> Result<(), git2::Error> {
    index.write()
}

/// `git2::Repository::workdir`: whether the repository has a working
/// directory (`false` for a bare repository).
#[verifier::external_body]
pub(crate) fn repo_has_workdir(repo: &git2::Repository) -> bool {
    repo.workdir().is_some()
}

/// `git2::Repository::checkout_index` from the repository's index, with a
/// forced `CheckoutBuilder` limited to `path`: overwrites the working-tree
/// file with its index version. `CheckoutBuilder::path` unwraps the C-string
/// conversion of `path`, which fails on a NUL character.
#[verifier::external_body]
pub(crate) fn checkout_index_path(repo: &git2::Repository, path: &str) -> Result<(), git2::Error>
    requires
        nul_free(path@),
{
    let mut opts = git2::build::CheckoutBuilder::new();
    opts.force().path(path);
    repo.checkout_index(None, Some(&mut opts))
}

/// `git2::Repository::head`: the reference HEAD resolves to.
#[verifier::external_body]
pub(crate) fn repo_head<'r>(repo: &'r git2::Repository) -> Result<git2::Reference<'r>, git2::Error> {
    repo.head()
}

/// `git2::Reference::peel_to_commit`.
#[verifier::external_body]
pub(crate) fn reference_peel_to_commit<'r>(r: &git2::Reference<'r>) -> Result<git2::Commit<'r>, git2::Error> {
    r.peel_to_commit()
}

/// `git2::Reference::peel_to_tree`.
#[verifier::external_body]
pub(crate) fn reference_peel_to_tree<'r>(r: &git2::Reference<'r>) -> Result<git2::Tree<'r>, git2::Error> {
    r.peel_to_tree()
}

/// `git2::Reference::shorthand`: the short name, `None` where it is not UTF-8.
#[verifier::external_body]
pub(crate) fn reference_shorthand(r: &git2::Reference<'_>) -> Option<String> {
    r.shorthand().map(String::from)
}

/// `git2::Repository::reset_default` for the single pathspec `path`, with the
/// commit (as an object) as target: resets that index entry to the commit.
#[verifier::external_body]
pub(crate) fn reset_default_path(
    repo: &git2::Repository,
    commit: &git2::Commit<'_>,
    path: &str,
) -> Result<(), git2::Error> {
    repo.reset_default(Some(commit.as_object()), [path])
}

/// `git2::Repository::diff_tree_to_index` against the repository's index, with
/// `DiffOptions` limited to the pathspec `path` and the given untracked switches.
/// `DiffOptions::pathspec` unwraps the C-string conversion of `path`, which
/// fails on a NUL character. The library takes file diffs only with
/// untracked files listed, recursed into and shown.
#[verifier::external_body]
pub(crate) fn diff_tree_to_index<'r>(
    repo: &'r git2::Repository,
    tree: Option<&git2::Tree<'_>>,
    path: &str,
    untracked: UntrackedSwitches,
) -> Result<git2::Diff<'r>, git2::Error>
    requires
        nul_free(path@),
        file_diff_untracked(untracked),
{
    let mut opts = git2::DiffOptions::new();
    opts.pathspec(path).include_untracked(untracked.listed)
        .recurse_untracked_dirs(untracked.recurse).show_untracked_content(untracked.content);
    repo.diff_tree_to_index(tree, None, Some(&mut opts))
}

/// `git2::Repository::diff_index_to_workdir` from the repository's index, with
/// `DiffOptions` limited to the pathspec `path` and the given untracked switches.
/// `DiffOptions::pathspec` unwraps the C-string conversion of `path`, which
/// fails on a NUL character. The library takes file diffs only with
/// untracked files listed, recursed into and shown.
#[verifier::external_body]
pub(crate) fn diff_index_to_workdir<'r>(
    repo: &'r git2::Repository,
    path: &str,
    untracked: UntrackedSwitches,
) -> Result<git2::Diff<'r>, git2::Error>
    requires
        nul_free(path@),
        file_diff_untracked(untracked),
{
    let mut opts = git2::DiffOptions::new();
    opts.pathspec(path).include_untracked(untracked.listed)
        .recurse_untracked_dirs(untracked.recurse).show_untracked_content(untracked.content);
    repo.diff_index_to_workdir(None, Some(&mut opts))
}

/// `git2::Repository::diff_tree_to_tree` between two trees, with default
/// `DiffOptions` plus one pathspec per entry of `pathspecs`.
/// `DiffOptions::pathspec` unwraps the C-string conversion of each pathspec,
/// which fails on a NUL character.
#[verifier::external_body]
pub(crate) fn diff_tree_to_tree<'r>(
    repo: &'r git2::Repository,
    left: &git2::Tree<'_>,
    right: &git2::Tree<'_>,
    pathspecs: &Vec<String>,
) -> Result<git2::Diff<'r>, git2::Error>
    requires
        forall|k: int| 0 <= k < pathspecs@.len() ==> nul_free(#[trigger] pathspecs@[k]@),
{
    let mut opts = git2::DiffOptions::new();
    for p in pathspecs {
        opts.pathspec(p.as_str());
    }
    repo.diff_tree_to_tree(Some(left), Some(right), Some(&mut opts))
}

/// `git2::Diff::find_similar` with `DiffFindOptions` set from `switches`
/// (rename and copy detection). The library pairs files only for reviews,
/// with renames detected and copies not.
#[verifier::external_body]
pub(crate) fn diff_find_similar(diff: &mut git2::Diff<'_>, switches: SimilarSwitches) -> Result<(), git2::Error>
    requires
        review_pairing(switches),
{
    let mut opts = git2::DiffFindOptions::new();
    opts.renames(switches.renames).copies(switches.copies);
    diff.find_similar(Some(&mut opts))
}

/// The variant of a `git2::Delta`, one for one.
#[verifier::external_body]
pub(crate) fn delta_kind(d: git2::Delta) -> DeltaKind {
    match d {
        git2::Delta::Unmodified => DeltaKind::Unmodified,
        git2::Delta::Added => DeltaKind::Added,
        git2::Delta::Deleted => DeltaKind::Deleted,
        git2::Delta::Modified => DeltaKind::Modified,
        git2::Delta::Renamed => DeltaKind::Renamed,
        git2::Delta::Copied => DeltaKind::Copied,
        git2::Delta::Ignored => DeltaKind::Ignored,
        git2::Delta::Untracked => DeltaKind::Untracked,
        git2::Delta::Typechange => DeltaKind::Typechange,
        git2::Delta::Unreadable => DeltaKind::Unreadable,
        git2::Delta::Conflicted => DeltaKind::Conflicted,
    }
}

/// `git2::Diff::deltas`: each delta's status (`DiffDelta::status`) and its new
/// and old paths (`DiffFile::path`, converted lossily to text).
#[verifier::external_body]
pub(crate) fn diff_deltas(diff: &git2::Diff<'_>) -> Vec<(git2::Delta, Option<String>, Option<String>)> {
    diff.deltas().map(|d| (
        d.status(),
        d.new_file().path().map(|p| p.to_string_lossy().into_owned()),
        d.old_file().path().map(|p| p.to_string_lossy().into_owned()),
    )).collect()
}

/// `git2::Diff::print` in `DiffFormat::Patch`: the origin character and the raw
/// content of every line it reports, in order. An error from `print` ends the
/// list early; it is not reported.
#[verifier::external_body]
pub(crate) fn diff_patch_lines(diff: &git2::Diff<'_>) -> Vec<PatchLine> {
    let mut lines = Vec::new();
    let _ = diff.print(git2::DiffFormat::Patch, |_delta, _hunk, line| {
        lines.push(PatchLine { origin: line.origin(), content: line.content().to_vec() });
        true
    });
    lines
}

/// `git2::Repository::find_tree`.
#[verifier::external_body]
pub(crate) fn find_tree<'r>(repo: &'r git2::Repository, id: git2::Oid) -> Result<git2::Tree<'r>, git2::Error> {
    repo.find_tree(id)
}

/// `git2::Repository::find_commit`.
#[verifier::external_body]
pub(crate) fn find_commit<'r>(repo: &'r git2::Repository, id: git2::Oid) -> Result<git2::Commit<'r>, git2::Error> {
    repo.find_commit(id)
}

/// `git2::Repository::revparse`: the revspec's mode bits (`RevparseMode::bits`)
/// and its `from` and `to` objects.
#[verifier::external_body]
pub(crate) fn revparse<'r>(repo: &'r git2::Repository, spec: &str) -> Result<RevspecParts<'r>, git2::Error> {
    let rs = repo.revparse(spec)?;
    Ok(RevspecParts { mode: rs.mode().bits(), from: rs.from().cloned(), to: rs.to().cloned() })
}

/// `git2::Object::peel_to_commit`.
#[verifier::external_body]
pub(crate) fn object_peel_to_commit<'r>(o: &git2::Object<'r>) -> Result<git2::Commit<'r>, git2::Error> {
    o.peel_to_commit()
}

/// `git2::Commit::id`.
#[verifier::external_body]
pub(crate) fn commit_id(c: &git2::Commit<'_>) -> git2::Oid {
    c.id()
}

/// `git2::Commit::tree_id`.
#[verifier::external_body]
pub(crate) fn commit_tree_id(c: &git2::Commit<'_>) -> git2::Oid {
    c.tree_id()
}

/// `git2::Commit::parent_count`.
#[verifier::external_body]
pub(crate) fn commit_parent_count(c: &git2::Commit<'_>) -> usize {
    c.parent_count()
}

/// `git2::Commit::parent`: the `i`-th parent (an error where there is none).
#[verifier::external_body]
pub(crate) fn commit_parent<'r>(c: &git2::Commit<'r>, i: usize) -> Result<git2::Commit<'r>, git2::Error> {
    c.parent(i)
}

/// `git2::Repository::merge_base`.
#[verifier::external_body]
pub(crate) fn merge_base(repo: &git2::Repository, one: git2::Oid, two: git2::Oid) -> Result<git2::Oid, git2::Error> {
    repo.merge_base(one, two)
}

/// `git2::TreeBuilder::write` on a fresh `Repository::treebuilder(None)`: the
/// id of the empty tree, written to the object database.
#[verifier::external_body]
pub(crate) fn write_empty_tree(repo: &git2::Repository) -> Result<git2::Oid, git2::Error> {
    repo.treebuilder(None)?.write()
}

} // verus!
