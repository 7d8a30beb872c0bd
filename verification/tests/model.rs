use gitty::git::{
    entry_for_delta, index_change, listing_from_deltas, listing_from_statuses, name_or_head,
    render_patch, rev_problem_failure, rev_shape, review_pathspecs, stage_op, workdir_change,
    Change, DeltaKind, DeltaRecord, DiffText, Failure, FileEntry, IndexOp, PatchLine, RevProblem,
    RevShape, Section, StatusRecord, REVPARSE_MERGE_BASE, REVPARSE_RANGE, STATUS_CONFLICTED,
    STATUS_INDEX_DELETED, STATUS_INDEX_MODIFIED, STATUS_INDEX_NEW, STATUS_INDEX_RENAMED,
    STATUS_INDEX_TYPECHANGE, STATUS_WT_DELETED, STATUS_WT_MODIFIED, STATUS_WT_NEW,
    STATUS_WT_RENAMED, STATUS_WT_TYPECHANGE,
};
use gitty::git::{diff_side, review_pair, review_similarity, status_switches, DiffSide};
use gitty::order::{entry_precedes, path_precedes, sort_listing};

fn rec(bits: u32, path: &str) -> StatusRecord {
    StatusRecord { bits, path: Some(path.to_string()) }
}

fn shape(v: &[FileEntry]) -> Vec<(String, Change, Section)> {
    v.iter().map(|f| (f.path.clone(), f.change, f.section)).collect()
}

#[test]
fn change_codes() {
    assert_eq!(Change::Added.code(), 'A');
    assert_eq!(Change::Modified.code(), 'M');
    assert_eq!(Change::Deleted.code(), 'D');
    assert_eq!(Change::Renamed.code(), 'R');
    assert_eq!(Change::Typechange.code(), 'T');
    assert_eq!(Change::Untracked.code(), '?');
    assert_eq!(Change::Conflicted.code(), 'U');
}

#[test]
fn index_flags_by_priority() {
    assert_eq!(index_change(0), None);
    assert_eq!(index_change(STATUS_INDEX_NEW | STATUS_INDEX_MODIFIED), Some(Change::Added));
    assert_eq!(index_change(STATUS_INDEX_MODIFIED | STATUS_INDEX_DELETED), Some(Change::Modified));
    assert_eq!(index_change(STATUS_INDEX_DELETED), Some(Change::Deleted));
    assert_eq!(index_change(STATUS_INDEX_RENAMED), Some(Change::Renamed));
    assert_eq!(index_change(STATUS_INDEX_TYPECHANGE), Some(Change::Typechange));
    assert_eq!(index_change(STATUS_WT_MODIFIED), None);
}

#[test]
fn workdir_flags_by_priority() {
    assert_eq!(workdir_change(0), None);
    assert_eq!(workdir_change(STATUS_WT_NEW | STATUS_WT_MODIFIED), Some(Change::Untracked));
    assert_eq!(workdir_change(STATUS_WT_MODIFIED), Some(Change::Modified));
    assert_eq!(workdir_change(STATUS_WT_DELETED), Some(Change::Deleted));
    assert_eq!(workdir_change(STATUS_WT_RENAMED | STATUS_WT_TYPECHANGE), Some(Change::Renamed));
    assert_eq!(workdir_change(STATUS_WT_TYPECHANGE), Some(Change::Typechange));
    assert_eq!(workdir_change(STATUS_INDEX_NEW), None);
}

#[test]
fn status_listing_sections_then_paths() {
    let recs = vec![
        rec(STATUS_WT_MODIFIED, "src/main.rs"),
        rec(STATUS_INDEX_NEW | STATUS_WT_MODIFIED, "b.txt"),
        rec(STATUS_WT_NEW, "a.txt"),
        StatusRecord { bits: STATUS_WT_NEW, path: None },
        rec(STATUS_CONFLICTED | STATUS_INDEX_MODIFIED, "c.txt"),
        rec(STATUS_INDEX_DELETED, "z.txt"),
    ];
    let out = listing_from_statuses(&recs);
    assert_eq!(
        shape(&out),
        vec![
            ("b.txt".to_string(), Change::Added, Section::Staged),
            ("z.txt".to_string(), Change::Deleted, Section::Staged),
            ("a.txt".to_string(), Change::Untracked, Section::Unstaged),
            ("b.txt".to_string(), Change::Modified, Section::Unstaged),
            ("c.txt".to_string(), Change::Conflicted, Section::Unstaged),
            ("src/main.rs".to_string(), Change::Modified, Section::Unstaged),
        ]
    );
    assert!(out.iter().all(|f| f.old_path.is_none()));
}

#[test]
fn status_listing_empty() {
    assert!(listing_from_statuses(&vec![]).is_empty());
    assert!(listing_from_statuses(&vec![rec(0, "clean.txt")]).is_empty());
}

#[test]
fn paths_order_by_component() {
    // "a/b" has the component "a", which sorts before "a-b" and "a.b".
    assert!(path_precedes("a/b", "a-b"));
    assert!(path_precedes("a/b", "a.b"));
    assert!(path_precedes("a-b", "a.b"));
    assert!(path_precedes("a", "a/b"));
    assert!(path_precedes("Z", "a"));
    assert!(!path_precedes("a", "a"));
    assert!(!path_precedes("b", "a/z"));
    assert!(path_precedes("", "a"));
}

#[test]
fn sort_is_by_section_then_path() {
    let e = |p: &str, s: Section| FileEntry {
        path: p.to_string(),
        old_path: None,
        change: Change::Modified,
        section: s,
    };
    assert!(entry_precedes(&e("z", Section::Staged), &e("a", Section::Unstaged)));
    assert!(!entry_precedes(&e("a", Section::Unstaged), &e("z", Section::Staged)));
    let sorted = sort_listing(vec![
        e("x.b", Section::Unstaged),
        e("x/y", Section::Unstaged),
        e("q", Section::Staged),
        e("x-a", Section::Unstaged),
    ]);
    let paths: Vec<&str> = sorted.iter().map(|f| f.path.as_str()).collect();
    assert_eq!(paths, vec!["q", "x/y", "x-a", "x.b"]);
}

#[test]
fn patch_text_keeps_markers_and_valid_text() {
    let lines = vec![
        PatchLine { origin: 'F', content: b"diff --git a/x b/x\n".to_vec() },
        PatchLine { origin: 'H', content: b"@@ -1 +1 @@\n".to_vec() },
        PatchLine { origin: '-', content: b"old\n".to_vec() },
        PatchLine { origin: '+', content: b"new\n".to_vec() },
        PatchLine { origin: ' ', content: b"same\n".to_vec() },
        PatchLine { origin: '+', content: vec![0xff, 0xfe, b'\n'] },
        PatchLine { origin: '=', content: "caf\u{e9}\n".as_bytes().to_vec() },
    ];
    assert_eq!(
        render_patch(&lines),
        "diff --git a/x b/x\n@@ -1 +1 @@\n-old\n+new\n same\n+caf\u{e9}\n"
    );
    assert_eq!(render_patch(&vec![]), "");
}

fn delta(status: DeltaKind, new: Option<&str>, old: Option<&str>) -> DeltaRecord {
    DeltaRecord {
        status,
        new_path: new.map(String::from),
        old_path: old.map(String::from),
    }
}

#[test]
fn deltas_become_review_entries() {
    let r = entry_for_delta(&delta(DeltaKind::Renamed, Some("new.rs"), Some("old.rs"))).unwrap();
    assert_eq!(r.path, "new.rs");
    assert_eq!(r.old_path.as_deref(), Some("old.rs"));
    assert_eq!(r.change, Change::Renamed);
    assert_eq!(r.section, Section::Review);

    let same = entry_for_delta(&delta(DeltaKind::Copied, Some("x"), Some("x"))).unwrap();
    assert_eq!(same.change, Change::Modified);
    assert_eq!(same.old_path, None);

    let del = entry_for_delta(&delta(DeltaKind::Deleted, Some("n"), Some("gone"))).unwrap();
    assert_eq!(del.path, "gone");
    assert_eq!(del.old_path, None);

    let added = entry_for_delta(&delta(DeltaKind::Added, None, Some("only-old"))).unwrap();
    assert_eq!(added.path, "only-old");

    assert!(entry_for_delta(&delta(DeltaKind::Unmodified, Some("u"), Some("u"))).is_none());
    assert!(entry_for_delta(&delta(DeltaKind::Untracked, Some("u"), None)).is_none());
    assert!(entry_for_delta(&delta(DeltaKind::Deleted, Some("n"), None)).is_none());
    assert!(entry_for_delta(&delta(DeltaKind::Modified, None, None)).is_none());
}

#[test]
fn review_listing_sorted_by_path() {
    let ds = vec![
        delta(DeltaKind::Modified, Some("src/z.rs"), Some("src/z.rs")),
        delta(DeltaKind::Added, Some("README.md"), None),
        delta(DeltaKind::Ignored, Some("target/x"), None),
        delta(DeltaKind::Typechange, Some("link"), Some("link")),
    ];
    let out = listing_from_deltas(&ds);
    assert_eq!(
        shape(&out),
        vec![
            ("README.md".to_string(), Change::Added, Section::Review),
            ("link".to_string(), Change::Typechange, Section::Review),
            ("src/z.rs".to_string(), Change::Modified, Section::Review),
        ]
    );
}

#[test]
fn revspec_shapes() {
    assert_eq!(rev_shape(REVPARSE_MERGE_BASE | REVPARSE_RANGE, true, true), Ok(RevShape::MergeBase));
    assert_eq!(rev_shape(REVPARSE_RANGE, true, true), Ok(RevShape::Range));
    assert_eq!(rev_shape(1, true, false), Ok(RevShape::Single));
    assert_eq!(rev_shape(REVPARSE_RANGE, false, true), Err(RevProblem::MissingLeft));
    assert_eq!(rev_shape(REVPARSE_MERGE_BASE, true, false), Err(RevProblem::MissingRight));
    assert_eq!(rev_shape(1, false, false), Err(RevProblem::Unresolved));
}

#[test]
fn failure_messages() {
    assert_eq!(rev_problem_failure(RevProblem::MissingLeft, "a..b").message(), "revspec \"a..b\" missing left side");
    assert_eq!(rev_problem_failure(RevProblem::MissingRight, "x").message(), "revspec \"x\" missing right side");
    assert_eq!(rev_problem_failure(RevProblem::Unresolved, "q\"t").message(), "could not resolve \"q\\\"t\"");
    assert_eq!(Failure::BareRepository.message(), "bare repo");
    assert_eq!(Failure::ReviewSectionDiff.message(), "review section uses diff_for_review");
    assert_eq!(Failure::Git("boom".to_string()).message(), "boom");
}

#[test]
fn staging_deletions_removes_from_index() {
    assert_eq!(stage_op(Change::Deleted), IndexOp::Remove);
    assert_eq!(stage_op(Change::Modified), IndexOp::Add);
    assert_eq!(stage_op(Change::Untracked), IndexOp::Add);
}

#[test]
fn highlighted_text_wins_over_plain() {
    match DiffText::from_patch("p".to_string(), Some("h".to_string())) {
        DiffText::Highlighted(s) => assert_eq!(s, "h"),
        DiffText::Plain(_) => panic!("expected highlighted"),
    }
    match DiffText::from_patch("p".to_string(), None) {
        DiffText::Plain(s) => assert_eq!(s, "p"),
        DiffText::Highlighted(_) => panic!("expected plain"),
    }
    assert_eq!(DiffText::Plain("x".to_string()).text(), "x");
}

#[test]
fn branch_name_falls_back_to_head() {
    assert_eq!(name_or_head(Some("main".to_string())), "main");
    assert_eq!(name_or_head(None), "HEAD");
}

#[test]
fn review_pathspecs_include_old_path() {
    let f = FileEntry {
        path: "b".to_string(),
        old_path: Some("a".to_string()),
        change: Change::Renamed,
        section: Section::Review,
    };
    assert_eq!(review_pathspecs(&f), vec!["b".to_string(), "a".to_string()]);
    let g = FileEntry { old_path: None, ..f.clone() };
    assert_eq!(review_pathspecs(&g), vec!["b".to_string()]);
}

#[test]
fn working_tree_entries_keep_their_kinds() {
    let recs = vec![
        rec(STATUS_CONFLICTED | STATUS_INDEX_NEW | STATUS_WT_NEW, "both.txt"),
        rec(STATUS_INDEX_RENAMED | STATUS_WT_NEW, "moved.txt"),
        rec(STATUS_WT_NEW, "new.txt"),
        rec(STATUS_INDEX_TYPECHANGE | STATUS_WT_DELETED, "link"),
    ];
    let out = listing_from_statuses(&recs);
    assert_eq!(out.len(), 6);
    for f in &out {
        assert_ne!(f.section, Section::Review);
        assert!(f.old_path.is_none());
        if f.change == Change::Untracked || f.change == Change::Conflicted {
            assert_eq!(f.section, Section::Unstaged);
        }
    }
}

#[test]
fn review_entries_keep_their_kinds() {
    let ds = vec![
        delta(DeltaKind::Renamed, Some("b.rs"), Some("a.rs")),
        delta(DeltaKind::Copied, Some("d.rs"), Some("c.rs")),
        delta(DeltaKind::Conflicted, Some("e.rs"), Some("e.rs")),
        delta(DeltaKind::Untracked, Some("f.rs"), None),
        delta(DeltaKind::Added, Some("g.rs"), Some("old-g.rs")),
    ];
    let out = listing_from_deltas(&ds);
    assert_eq!(out.len(), 3);
    for f in &out {
        assert_eq!(f.section, Section::Review);
        assert_ne!(f.change, Change::Untracked);
        assert_ne!(f.change, Change::Conflicted);
        if f.old_path.is_some() {
            assert!(f.change == Change::Renamed || f.change == Change::Modified);
        }
    }
    assert_eq!(out[2].path, "g.rs");
    assert_eq!(out[2].old_path, None);
}

#[test]
fn what_is_handed_to_git() {
    let st = status_switches();
    assert!(st.untracked && st.recurse_untracked);
    assert!(st.renames_head_to_index && st.renames_index_to_workdir);
    let sim = review_similarity();
    assert!(sim.renames && !sim.copies);
    assert_eq!(diff_side(Section::Staged).unwrap(), DiffSide::HeadToIndex);
    assert_eq!(diff_side(Section::Unstaged).unwrap(), DiffSide::IndexToWorkdir);
    assert!(matches!(diff_side(Section::Review), Err(Failure::ReviewSectionDiff)));
}

#[test]
fn review_pairs_by_shape() {
    let id = |n: u8| git2::Oid::from_bytes(&[n; 20]).unwrap();
    let (f, t, b, p, e) = (id(1), id(2), id(3), id(4), id(5));
    assert_eq!(review_pair(RevShape::MergeBase, Some(f), Some(t), Some(b), None, None), Some((b, t)));
    assert_eq!(review_pair(RevShape::Range, Some(f), Some(t), None, None, None), Some((f, t)));
    assert_eq!(review_pair(RevShape::Single, Some(f), None, None, Some(p), None), Some((p, f)));
    assert_eq!(review_pair(RevShape::Single, Some(f), None, None, None, Some(e)), Some((e, f)));
    assert_eq!(review_pair(RevShape::Single, Some(f), None, None, None, None), None);
    assert_eq!(review_pair(RevShape::Range, Some(f), None, None, None, None), None);
    assert_eq!(review_pair(RevShape::MergeBase, Some(f), Some(t), None, None, None), None);
}
