use gitty::app::{App, Search};
use gitty::git::{Change, FileEntry, Section};
use gitty::ui::{
    centered_rect, change_rows, change_tint, help_lines, line_kind, mark_look, path_look,
    section_label, status_text_with, truncate_path_left, Area, HelpStyle, LineKind, MarkLook,
    PathLook, Row, Tint,
};

fn fresh_repo(tag: &str) -> git2::Repository {
    let nanos = std::time::SystemTime::now()
        .duration_since(std::time::UNIX_EPOCH)
        .unwrap()
        .as_nanos();
    git2::Repository::init(format!("/tmp/gitty-tests/{tag}-{nanos}")).unwrap()
}

fn entry(p: &str, change: Change, section: Section) -> FileEntry {
    FileEntry { path: p.to_string(), old_path: None, change, section }
}

#[test]
fn truncation_keeps_the_end() {
    assert_eq!(truncate_path_left("abcdef", 0), "");
    assert_eq!(truncate_path_left("abcdef", 6), "abcdef");
    assert_eq!(truncate_path_left("abcdef", 10), "abcdef");
    assert_eq!(truncate_path_left("abcdef", 4), "\u{2026}def");
    assert_eq!(truncate_path_left("abcdef", 1), "\u{2026}");
    assert_eq!(truncate_path_left("\u{e9}t\u{e9}/x", 3), "\u{2026}/x");
    for max in 0..8 {
        assert!(truncate_path_left("src/some/long/path.rs", max).chars().count() <= max);
    }
}

#[test]
fn change_colors() {
    assert_eq!(change_tint(Change::Added), Tint::Green);
    assert_eq!(change_tint(Change::Untracked), Tint::Green);
    assert_eq!(change_tint(Change::Modified), Tint::Yellow);
    assert_eq!(change_tint(Change::Typechange), Tint::Yellow);
    assert_eq!(change_tint(Change::Deleted), Tint::Red);
    assert_eq!(change_tint(Change::Renamed), Tint::Blue);
    assert_eq!(change_tint(Change::Conflicted), Tint::Magenta);
}

#[test]
fn diff_line_kinds() {
    assert_eq!(line_kind("@@ -1,2 +1,3 @@"), LineKind::HunkHeader);
    assert_eq!(line_kind("+++ b/file"), LineKind::FileHeader);
    assert_eq!(line_kind("--- a/file"), LineKind::FileHeader);
    assert_eq!(line_kind("+added"), LineKind::Added);
    assert_eq!(line_kind("-removed"), LineKind::Removed);
    assert_eq!(line_kind("++"), LineKind::Added);
    assert_eq!(line_kind(" context"), LineKind::Context);
    assert_eq!(line_kind("@"), LineKind::Context);
    assert_eq!(line_kind(""), LineKind::Context);
}

#[test]
fn popup_is_centered_inside() {
    let r = centered_rect(60, 20, Area { x: 0, y: 0, width: 100, height: 40 });
    assert_eq!(r, Area { x: 20, y: 10, width: 60, height: 20 });
    let small = centered_rect(60, 20, Area { x: 5, y: 5, width: 30, height: 10 });
    assert_eq!(small, Area { x: 6, y: 6, width: 28, height: 8 });
    let tiny = centered_rect(60, 20, Area { x: 0, y: 0, width: 1, height: 1 });
    assert_eq!(tiny, Area { x: 0, y: 0, width: 0, height: 0 });
}

#[test]
fn help_depends_on_mode() {
    let normal = help_lines(false);
    let review = help_lines(true);
    assert_eq!(normal.len(), 17);
    assert_eq!(review.len(), 15);
    assert_eq!(normal[0].text, "Keybindings");
    assert_eq!(normal[0].style, HelpStyle::Title);
    assert!(normal.iter().any(|l| l.text.contains("stage selected")));
    assert!(!review.iter().any(|l| l.text.contains("stage selected")));
    assert!(review.iter().any(|l| l.text.contains("toggle reviewed")));
    assert_eq!(review[review.len() - 2].text, "review mode is read-only");
    assert_eq!(review[review.len() - 1].style, HelpStyle::Dim);
    assert_eq!(normal[normal.len() - 1].text, "? / Esc / q to close");
}

#[test]
fn section_labels() {
    assert_eq!(section_label(Section::Staged).as_deref(), Some("Staged"));
    assert_eq!(section_label(Section::Unstaged).as_deref(), Some("Changes"));
    assert_eq!(section_label(Section::Review), None);
}

#[test]
fn rows_put_headers_before_sections() {
    let mut app = App::new(fresh_repo("rows")).unwrap();
    app.files = vec![
        entry("a.txt", Change::Added, Section::Staged),
        entry("b.txt", Change::Modified, Section::Unstaged),
        entry("c.txt", Change::Untracked, Section::Unstaged),
    ];
    app.files[1].old_path = Some("old-b.txt".to_string());
    app.selected = 2;
    let (rows, visual) = change_rows(&app, 40);
    assert_eq!(rows.len(), 5);
    assert_eq!(visual, Some(4));
    match &rows[0] {
        Row::Header(s) => assert_eq!(*s, Section::Staged),
        Row::File(_) => panic!("header expected"),
    }
    match &rows[2] {
        Row::Header(s) => assert_eq!(*s, Section::Unstaged),
        Row::File(_) => panic!("header expected"),
    }
    match &rows[3] {
        Row::File(fr) => {
            assert_eq!(fr.text, "old-b.txt \u{2192} b.txt");
            assert_eq!(fr.code, 'M');
            assert_eq!(fr.mark, None);
            assert!(!fr.selected);
        }
        Row::Header(_) => panic!("file expected"),
    }
    match &rows[4] {
        Row::File(fr) => {
            assert!(fr.selected);
            assert_eq!(fr.tint, Tint::Green);
        }
        Row::Header(_) => panic!("file expected"),
    }
    // A narrow list cuts paths from the left.
    let (narrow, _) = change_rows(&app, 10);
    match &narrow[1] {
        Row::File(fr) => assert_eq!(fr.text, "\u{2026}txt"),
        Row::Header(_) => panic!("file expected"),
    }
}

#[test]
fn rows_without_selection() {
    let mut app = App::new(fresh_repo("rows-none")).unwrap();
    app.files = vec![entry("a", Change::Added, Section::Staged)];
    app.selected = 3;
    let (rows, visual) = change_rows(&app, 40);
    assert_eq!(rows.len(), 2);
    assert_eq!(visual, None);
}

#[test]
fn status_bar_texts() {
    let mut app = App::new(fresh_repo("status")).unwrap();
    app.files = vec![
        entry("a", Change::Added, Section::Staged),
        entry("b", Change::Modified, Section::Unstaged),
        entry("c", Change::Modified, Section::Unstaged),
    ];
    assert_eq!(
        status_text_with(&app, "main"),
        " main  1 staged  2 unstaged  ? help  q quit"
    );
    app.status_msg = Some("cancelled".to_string());
    assert_eq!(status_text_with(&app, "dev"), " dev  1 staged  2 unstaged  cancelled");
    app.search = Search::Input("ab".to_string());
    assert_eq!(status_text_with(&app, "dev"), "/ab\u{258f}");
    app.search = Search::Active {
        query: "b".to_string(),
        matches: vec!["b".to_string()],
        cursor: 0,
        order: vec![1, 2],
    };
    assert_eq!(
        status_text_with(&app, "dev"),
        " /b  [1/2]  n next  N prev  Esc clear"
    );
}

#[test]
fn row_looks() {
    assert_eq!(path_look(true, true, false), PathLook::Match);
    assert_eq!(path_look(false, true, true), PathLook::Reviewed);
    assert_eq!(path_look(false, true, false), PathLook::ReviewedDim);
    assert_eq!(path_look(false, false, false), PathLook::Normal);
    assert_eq!(mark_look(true, false), MarkLook::Checked);
    assert_eq!(mark_look(false, true), MarkLook::Open);
    assert_eq!(mark_look(false, false), MarkLook::OpenDim);
}

#[test]
fn review_rows_show_marks() {
    let repo = fresh_repo("rows-review");
    let mut app = App::new(repo).unwrap();
    app.mode = gitty::app::Mode::Review {
        spec: "HEAD".to_string(),
        left: git2::Oid::zero(),
        right: git2::Oid::zero(),
        reviewed: vec!["b.rs".to_string()],
    };
    app.files = vec![
        entry("a.rs", Change::Modified, Section::Review),
        entry("b.rs", Change::Added, Section::Review),
    ];
    app.selected = 0;
    let (rows, visual) = change_rows(&app, 40);
    assert_eq!(rows.len(), 2);
    assert_eq!(visual, Some(0));
    match &rows[0] {
        Row::File(fr) => {
            assert_eq!(fr.mark, Some(false));
            assert_eq!(fr.mark_look, Some(MarkLook::Open));
            assert_eq!(fr.path_look, PathLook::Normal);
            assert!(!fr.code_dim);
        }
        Row::Header(_) => panic!("file expected"),
    }
    match &rows[1] {
        Row::File(fr) => {
            assert_eq!(fr.mark, Some(true));
            assert_eq!(fr.mark_look, Some(MarkLook::Checked));
            assert_eq!(fr.path_look, PathLook::ReviewedDim);
            assert!(fr.code_dim);
        }
        Row::Header(_) => panic!("file expected"),
    }
}
