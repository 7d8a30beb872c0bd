use gitty::app::{App, Confirm, Mode};
use gitty::git::{
    branch_name, diff_for, diff_for_review, discard, load_review, load_review_between,
    load_status, resolve_review_trees, Change, DiscardPlan, Failure, Section,
};

fn fresh_repo(tag: &str) -> git2::Repository {
    let nanos = std::time::SystemTime::now()
        .duration_since(std::time::UNIX_EPOCH)
        .unwrap()
        .as_nanos();
    git2::Repository::init(format!("/tmp/gitty-tests/{tag}-{nanos}")).unwrap()
}

fn commit(repo: &git2::Repository, files: &[(&str, &str)], msg: &str) -> git2::Oid {
    let mut tb = repo.treebuilder(None).unwrap();
    for (name, data) in files {
        let blob = repo.blob(data.as_bytes()).unwrap();
        tb.insert(*name, blob, 0o100644).unwrap();
    }
    let tree = repo.find_tree(tb.write().unwrap()).unwrap();
    let sig = git2::Signature::now("t", "t@example.com").unwrap();
    let parents: Vec<git2::Commit> = match repo.head().ok().and_then(|h| h.peel_to_commit().ok()) {
        Some(c) => vec![c],
        None => vec![],
    };
    let refs: Vec<&git2::Commit> = parents.iter().collect();
    repo.commit(Some("HEAD"), &sig, &sig, msg, &tree, &refs).unwrap()
}

fn stage_buffer(repo: &git2::Repository, path: &str, data: &str) {
    let mut index = repo.index().unwrap();
    let entry = git2::IndexEntry {
        ctime: git2::IndexTime::new(0, 0),
        mtime: git2::IndexTime::new(0, 0),
        dev: 0,
        ino: 0,
        mode: 0o100644,
        uid: 0,
        gid: 0,
        file_size: data.len() as u32,
        id: git2::Oid::zero(),
        flags: 0,
        flags_extended: 0,
        path: path.as_bytes().to_vec(),
    };
    index.add_frombuffer(&entry, data.as_bytes()).unwrap();
    index.write().unwrap();
}

const TEXT_A: &str = "line one\nline two\nline three\nline four\nline five\n";

fn shape(v: &[gitty::git::FileEntry]) -> Vec<(String, Option<String>, Change, Section)> {
    v.iter()
        .map(|f| (f.path.clone(), f.old_path.clone(), f.change, f.section))
        .collect()
}

#[test]
fn review_of_root_commit_is_against_empty_tree() {
    let repo = fresh_repo("root");
    commit(&repo, &[("b.txt", "bee\n"), ("a.txt", TEXT_A)], "first");
    let (_, _, files) = load_review(&repo, "HEAD").unwrap();
    assert_eq!(
        shape(&files),
        vec![
            ("a.txt".to_string(), None, Change::Added, Section::Review),
            ("b.txt".to_string(), None, Change::Added, Section::Review),
        ]
    );
}

#[test]
fn review_detects_renames() {
    let repo = fresh_repo("rename");
    commit(&repo, &[("a.txt", TEXT_A), ("b.txt", "bee\n")], "first");
    commit(&repo, &[("c.txt", TEXT_A), ("b.txt", "bee bee\n")], "second");
    let expected = vec![
        ("b.txt".to_string(), None, Change::Modified, Section::Review),
        ("c.txt".to_string(), Some("a.txt".to_string()), Change::Renamed, Section::Review),
    ];
    for spec in ["HEAD", "HEAD~1..HEAD", "HEAD~1...HEAD"] {
        let (_, _, files) = load_review(&repo, spec).unwrap();
        assert_eq!(shape(&files), expected, "for {spec}");
    }
    let (left, right, files) = load_review(&repo, "HEAD").unwrap();
    let patch = diff_for_review(&repo, &files[0], left, right).unwrap();
    assert!(patch.contains("-bee\n"));
    assert!(patch.contains("+bee bee\n"));
}

#[test]
fn review_of_unknown_revision_fails() {
    let repo = fresh_repo("unknown");
    commit(&repo, &[("a.txt", "a\n")], "first");
    match load_review(&repo, "no-such-branch") {
        Err(Failure::Git(_)) => {}
        Err(e) => panic!("unexpected failure {}", e.message()),
        Ok(_) => panic!("expected a failure"),
    }
}

#[test]
fn review_viewer_loads_and_keeps_marks_on_refresh() {
    let repo = fresh_repo("review-app");
    commit(&repo, &[("a.txt", "a\n")], "first");
    commit(&repo, &[("a.txt", "a\n"), ("n.txt", "n\n")], "second");
    let mut app = App::new_review(repo, "HEAD".to_string()).unwrap();
    assert!(app.is_review());
    assert_eq!(app.files.len(), 1);
    assert_eq!(app.files[0].path, "n.txt");
    app.toggle_reviewed();
    assert_eq!(app.reviewed_count(), 1);
    app.refresh().unwrap();
    assert_eq!(app.reviewed_count(), 1);
    match &app.mode {
        Mode::Review { spec, .. } => assert_eq!(spec, "HEAD"),
        Mode::Status => panic!("review mode expected"),
    }
    let file = app.files[0].clone();
    let patch = app.compute_patch(&file).unwrap();
    assert!(patch.contains("+n\n"));
    app.ensure_current_diff();
    assert!(app.current_diff().is_some());
    app.scroll_diff_bottom();
    let lines = app.current_diff().unwrap().text().lines().count();
    assert_eq!(app.diff_scroll as usize, lines - 1);
}

#[test]
fn status_of_staged_buffer() {
    let repo = fresh_repo("status");
    stage_buffer(&repo, "new.txt", "hello\n");
    let files = load_status(&repo).unwrap();
    assert_eq!(
        shape(&files),
        vec![
            ("new.txt".to_string(), None, Change::Added, Section::Staged),
            ("new.txt".to_string(), None, Change::Deleted, Section::Unstaged),
        ]
    );
    let staged = diff_for(&repo, "new.txt", Section::Staged).unwrap();
    assert!(staged.contains("+hello\n"));
    let unstaged = diff_for(&repo, "new.txt", Section::Unstaged).unwrap();
    assert!(unstaged.contains("-hello\n"));
    match diff_for(&repo, "new.txt", Section::Review) {
        Err(Failure::ReviewSectionDiff) => {}
        _ => panic!("review entries are not diffed here"),
    }
    assert_eq!(branch_name(&repo), "HEAD");
}

#[test]
fn unstage_and_stage_move_the_selection() {
    let repo = fresh_repo("stage");
    commit(&repo, &[("a.txt", "a\n"), ("b.txt", "b\n")], "first");
    let mut app = App::new(repo).unwrap();
    // The commit did not touch the index: both files are staged deletions.
    assert_eq!(
        shape(&app.files),
        vec![
            ("a.txt".to_string(), None, Change::Deleted, Section::Staged),
            ("b.txt".to_string(), None, Change::Deleted, Section::Staged),
        ]
    );
    app.unstage_selected().unwrap();
    assert_eq!(
        shape(&app.files),
        vec![
            ("b.txt".to_string(), None, Change::Deleted, Section::Staged),
            ("a.txt".to_string(), None, Change::Deleted, Section::Unstaged),
        ]
    );
    assert_eq!(app.selected, 0);
    app.selected = 1;
    app.stage_selected().unwrap();
    assert_eq!(app.staged_count(), 2);
    assert_eq!(app.unstaged_count(), 0);
    // the unstaged list is empty: the selection goes to the first other entry
    assert_eq!(app.selected, 0);
    assert_ne!(app.branch_name(), "HEAD");
}

#[test]
fn discard_plans() {
    let repo = fresh_repo("discard");
    match discard(&repo, "junk.txt", Change::Untracked).unwrap() {
        DiscardPlan::RemoveUntracked { path } => {
            assert_eq!(path, "junk.txt");
        }
        DiscardPlan::CheckedOut => panic!("untracked files are removed"),
    }
}

#[test]
fn discard_in_bare_repository_fails() {
    let nanos = std::time::SystemTime::now()
        .duration_since(std::time::UNIX_EPOCH)
        .unwrap()
        .as_nanos();
    let repo = git2::Repository::init_bare(format!("/tmp/gitty-tests/bare-{nanos}")).unwrap();
    match discard(&repo, "junk.txt", Change::Untracked) {
        Err(Failure::BareRepository) => {}
        _ => panic!("a bare repository has no working tree"),
    }
}

#[test]
fn confirming_a_tracked_discard_restores_and_refreshes() {
    let repo = fresh_repo("confirm");
    stage_buffer(&repo, "kept.txt", "kept\n");
    let mut app = App::new(repo).unwrap();
    app.selected = 1;
    app.request_discard();
    assert!(matches!(app.pending, Some(Confirm::Discard { .. })));
    let r = app.confirm_yes().unwrap();
    assert!(r.is_none());
    assert!(app.pending.is_none());
    assert_eq!(app.status_msg.as_deref(), Some("discarded"));
    // the file was checked out from the index: only the staged addition is left
    assert_eq!(
        shape(&app.files),
        vec![("kept.txt".to_string(), None, Change::Added, Section::Staged)]
    );
}

#[test]
fn confirming_an_untracked_discard_hands_back_the_removal() {
    let repo = fresh_repo("confirm-untracked");
    let mut app = App::new(repo).unwrap();
    app.pending = Some(Confirm::Discard { path: "tmp.log".to_string(), change: Change::Untracked });
    let removal = app.confirm_yes().unwrap().unwrap();
    assert_eq!(removal.path, "tmp.log");
    assert!(app.pending.is_none());
    app.finish_discard().unwrap();
    assert_eq!(app.status_msg.as_deref(), Some("discarded"));
}

#[test]
fn refresh_keeps_the_edited_file_selected() {
    let repo = fresh_repo("keep");
    stage_buffer(&repo, "a.txt", "a\n");
    stage_buffer(&repo, "b.txt", "b\n");
    let mut app = App::new(repo).unwrap();
    app.selected = 3;
    app.diff_scroll = 7;
    assert_eq!(app.files[3].path, "b.txt");
    app.refresh_keep_selection().unwrap();
    assert_eq!(app.selected, 3);
    assert_eq!(app.diff_scroll, 7);
    app.refresh().unwrap();
    assert_eq!(app.selected, 3);
    assert_eq!(app.diff_scroll, 0);
}

#[test]
fn cached_diffs_are_kept_until_refresh() {
    let repo = fresh_repo("cache");
    stage_buffer(&repo, "a.txt", "a\n");
    let mut app = App::new(repo).unwrap();
    assert!(app.pending_diff().is_some());
    app.ensure_current_diff();
    assert!(app.pending_diff().is_none());
    let text = app.current_diff().unwrap().text().clone();
    assert!(text.contains("+a\n"));
    app.store_diff("a.txt".to_string(), Section::Staged, gitty::git::DiffText::Plain("other".to_string()));
    assert_eq!(app.current_diff().unwrap().text(), &text);
    app.refresh().unwrap();
    assert!(app.cached_current_diff().is_none());
    // asking for the diff computes it again
    assert_eq!(app.current_diff().unwrap().text(), &text);
    assert!(app.cached_current_diff().is_some());
}

#[test]
fn review_trees_follow_the_revspec() {
    let repo = fresh_repo("trees");
    let c1 = commit(&repo, &[("a.txt", "one\n")], "first");
    let c2 = commit(&repo, &[("a.txt", "two\n")], "second");
    let c3 = commit(&repo, &[("a.txt", "three\n")], "third");
    let tree = |c: git2::Oid| repo.find_commit(c).unwrap().tree_id();
    let empty = repo.treebuilder(None).unwrap().write().unwrap();
    let range = format!("{c1}..{c3}");
    assert_eq!(resolve_review_trees(&repo, &range).unwrap(), (tree(c1), tree(c3)));
    let merge = format!("{c2}...{c3}");
    assert_eq!(resolve_review_trees(&repo, &merge).unwrap(), (tree(c2), tree(c3)));
    let single = format!("{c2}");
    assert_eq!(resolve_review_trees(&repo, &single).unwrap(), (tree(c1), tree(c2)));
    let root = format!("{c1}");
    assert_eq!(resolve_review_trees(&repo, &root).unwrap(), (empty, tree(c1)));
    let (l, r, files) = load_review_between(&repo, tree(c1), tree(c3)).unwrap();
    assert_eq!((l, r), (tree(c1), tree(c3)));
    assert_eq!(files.len(), 1);
    assert_eq!(files[0].change, Change::Modified);
}

#[test]
fn bottom_of_an_uncached_diff() {
    let repo = fresh_repo("bottom");
    stage_buffer(&repo, "a.txt", "one\ntwo\nthree\n");
    let mut app = App::new(repo).unwrap();
    assert!(app.cached_current_diff().is_none());
    app.scroll_diff_bottom();
    let lines = app.cached_current_diff().unwrap().text().lines().count();
    assert!(lines > 3);
    assert_eq!(app.diff_scroll as usize, lines - 1);
}
