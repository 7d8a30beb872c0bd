use gitty::app::{cache_keys_distinct, App, CachedDiff, Confirm, Mode, Pane, Search};
use gitty::git::DiffText;
use gitty::git::{Change, FileEntry, Section};
use gitty::keys::{handle_key, key_command, parse_args, Command, Key, KeyPress};

fn fresh_repo(tag: &str) -> git2::Repository {
    let nanos = std::time::SystemTime::now()
        .duration_since(std::time::UNIX_EPOCH)
        .unwrap()
        .as_nanos();
    git2::Repository::init(format!("/tmp/gitty-tests/{tag}-{nanos}")).unwrap()
}

fn entry(p: &str, change: Change, section: Section) -> FileEntry {
    FileEntry { path: p.to_string(), old_path: None, change, section }
}

fn app_with(tag: &str, files: Vec<FileEntry>) -> App {
    let mut app = App::new(fresh_repo(tag)).unwrap();
    app.files = files;
    app
}

fn sample(tag: &str) -> App {
    app_with(
        tag,
        vec![
            entry("docs/guide.md", Change::Added, Section::Staged),
            entry("src/app.rs", Change::Modified, Section::Unstaged),
            entry("src/gone.rs", Change::Deleted, Section::Unstaged),
            entry("src/main.rs", Change::Modified, Section::Unstaged),
        ],
    )
}

fn review_app(tag: &str, files: Vec<FileEntry>) -> App {
    let mut app = app_with(tag, files);
    app.mode = Mode::Review {
        spec: "HEAD~1..HEAD".to_string(),
        left: git2::Oid::zero(),
        right: git2::Oid::zero(),
        reviewed: vec![],
    };
    app
}

fn key(c: char) -> KeyPress {
    KeyPress { key: Key::Char(c), ctrl: false }
}

fn ctrl(c: char) -> KeyPress {
    KeyPress { key: Key::Char(c), ctrl: true }
}

fn special(k: Key) -> KeyPress {
    KeyPress { key: k, ctrl: false }
}

fn press(app: &mut App, k: KeyPress) {
    // a diff pane showing 20 lines: Ctrl-d and Ctrl-u move by 10
    assert!(handle_key(app, k, 20).unwrap().is_none());
}

fn type_query(app: &mut App, q: &str) {
    press(app, key('/'));
    for c in q.chars() {
        press(app, key(c));
    }
}

#[test]
fn new_viewer_starts_clean() {
    let app = App::new(fresh_repo("fresh")).unwrap();
    assert!(app.files.is_empty());
    assert_eq!(app.selected, 0);
    assert!(!app.should_quit);
    assert_eq!(app.focus, Pane::Status);
    assert!(matches!(app.search, Search::Off));
    assert!(!app.is_review());
    assert!(app.is_wf());
}

#[test]
fn moving_stays_in_list() {
    let mut app = sample("move");
    app.diff_scroll = 5;
    app.move_up();
    assert_eq!(app.selected, 0);
    assert_eq!(app.diff_scroll, 5);
    app.move_down();
    assert_eq!(app.selected, 1);
    assert_eq!(app.diff_scroll, 0);
    app.move_down();
    app.move_down();
    app.move_down();
    assert_eq!(app.selected, 3);
    app.move_up();
    assert_eq!(app.selected, 2);
}

#[test]
fn scrolling_saturates() {
    let mut app = sample("scroll");
    app.scroll_diff_up(3);
    assert_eq!(app.diff_scroll, 0);
    app.scroll_diff_down(10);
    app.scroll_diff_down(5);
    assert_eq!(app.diff_scroll, 15);
    app.scroll_diff_up(5);
    assert_eq!(app.diff_scroll, 10);
    app.scroll_diff_down(u16::MAX);
    assert_eq!(app.diff_scroll, u16::MAX);
    app.scroll_diff_top();
    assert_eq!(app.diff_scroll, 0);
}

#[test]
fn search_flow_selects_and_cycles() {
    let mut app = sample("search");
    app.selected = 2;
    type_query(&mut app, "src");
    match &app.search {
        Search::Input(q) => assert_eq!(q, "src"),
        _ => panic!("typing expected"),
    }
    press(&mut app, special(Key::Enter));
    // matches are 1, 2, 3; the first at or after the selection is 2
    assert_eq!(app.selected, 2);
    assert!(app.is_match("src/main.rs"));
    assert!(!app.is_match("docs/guide.md"));
    press(&mut app, key('n'));
    assert_eq!(app.selected, 3);
    press(&mut app, key('n'));
    assert_eq!(app.selected, 1);
    press(&mut app, key('N'));
    assert_eq!(app.selected, 3);
    press(&mut app, special(Key::Esc));
    assert!(matches!(app.search, Search::Off));
    assert!(!app.is_match("src/main.rs"));
}

#[test]
fn search_wraps_to_first_match() {
    let mut app = sample("search-wrap");
    app.selected = 3;
    type_query(&mut app, "guide");
    press(&mut app, special(Key::Enter));
    assert_eq!(app.selected, 0);
}

#[test]
fn search_without_matches_reports() {
    let mut app = sample("search-none");
    type_query(&mut app, "zzz");
    press(&mut app, special(Key::Enter));
    assert!(matches!(app.search, Search::Off));
    assert_eq!(app.status_msg.as_deref(), Some("no matches for \"zzz\""));
}

#[test]
fn search_input_editing() {
    let mut app = sample("search-edit");
    type_query(&mut app, "ab");
    press(&mut app, special(Key::Backspace));
    match &app.search {
        Search::Input(q) => assert_eq!(q, "a"),
        _ => panic!("typing expected"),
    }
    press(&mut app, special(Key::Backspace));
    press(&mut app, special(Key::Backspace));
    assert!(matches!(app.search, Search::Off));
    // an empty query leaves the search
    press(&mut app, key('/'));
    press(&mut app, special(Key::Enter));
    assert!(matches!(app.search, Search::Off));
    // while typing, `q` is a character, not quit
    type_query(&mut app, "q");
    assert!(!app.should_quit);
}

#[test]
fn next_then_prev_returns() {
    let mut app = sample("next-prev");
    type_query(&mut app, "s");
    press(&mut app, special(Key::Enter));
    let before = app.selected;
    app.search_next();
    app.search_prev();
    assert_eq!(app.selected, before);
}

#[test]
fn gg_goes_to_top_of_diff() {
    let mut app = sample("gg");
    press(&mut app, key('l'));
    assert_eq!(app.focus, Pane::Diff);
    press(&mut app, key('j'));
    press(&mut app, key('j'));
    assert_eq!(app.diff_scroll, 2);
    press(&mut app, ctrl('d'));
    assert_eq!(app.diff_scroll, 12);
    press(&mut app, key('g'));
    assert!(app.pending_g);
    assert_eq!(app.diff_scroll, 12);
    press(&mut app, key('g'));
    assert!(!app.pending_g);
    assert_eq!(app.diff_scroll, 0);
    // a single g followed by another key is forgotten
    press(&mut app, key('g'));
    press(&mut app, key('k'));
    assert!(!app.pending_g);
    press(&mut app, key('h'));
    assert_eq!(app.focus, Pane::Status);
    press(&mut app, key('j'));
    assert_eq!(app.selected, 1);
}

#[test]
fn help_captures_keys() {
    let mut app = sample("help");
    press(&mut app, key('?'));
    assert!(app.show_help);
    press(&mut app, key('j'));
    assert_eq!(app.selected, 0);
    press(&mut app, key('q'));
    assert!(!app.show_help);
    assert!(!app.should_quit);
    press(&mut app, key('q'));
    assert!(app.should_quit);
}

#[test]
fn discard_needs_unstaged_and_confirmation() {
    let mut app = sample("discard");
    app.request_discard();
    assert!(app.pending.is_none());
    assert_eq!(
        app.status_msg.as_deref(),
        Some("discard only applies to unstaged changes")
    );
    app.selected = 1;
    press(&mut app, key('X'));
    match &app.pending {
        Some(Confirm::Discard { path, change }) => {
            assert_eq!(path, "src/app.rs");
            assert_eq!(*change, Change::Modified);
        }
        None => panic!("confirmation expected"),
    }
    assert_eq!(app.status_msg.as_deref(), Some("discard src/app.rs? (y/n)"));
    press(&mut app, key('n'));
    assert!(app.pending.is_none());
    assert_eq!(app.status_msg.as_deref(), Some("cancelled"));
    // the next key clears the message
    press(&mut app, key('k'));
    assert_eq!(app.status_msg, None);
}

#[test]
fn edit_requests() {
    let mut app = sample("edit");
    app.selected = 2;
    press(&mut app, key('e'));
    assert_eq!(app.edit_request, None);
    assert_eq!(app.status_msg.as_deref(), Some("file is deleted, nothing to edit"));
    app.selected = 3;
    press(&mut app, key('e'));
    assert_eq!(app.edit_request.as_deref(), Some("src/main.rs"));
}

#[test]
fn counts_by_section() {
    let app = sample("counts");
    assert_eq!(app.staged_count(), 1);
    assert_eq!(app.unstaged_count(), 3);
    let mut app = sample("within");
    app.selected = 3;
    assert_eq!(app.index_within_section(), 2);
    app.selected = 0;
    assert_eq!(app.index_within_section(), 0);
    app.selected = 9;
    assert_eq!(app.index_within_section(), 0);
}

#[test]
fn review_mode_is_read_only() {
    let files = vec![
        entry("a.rs", Change::Modified, Section::Review),
        entry("b.rs", Change::Deleted, Section::Review),
    ];
    let mut app = review_app("review-ro", files);
    app.selected = 1;
    for k in [key('s'), key('u'), key('X'), key('e')] {
        press(&mut app, k);
        assert!(app.pending.is_none());
        assert_eq!(app.edit_request, None);
        if k == key('X') {
            assert_eq!(app.status_msg.as_deref(), Some("discard only applies to unstaged changes"));
        } else {
            assert_eq!(app.status_msg, None);
        }
        assert_eq!(app.files.len(), 2);
    }
    assert!(app.stage_selected().is_ok());
    assert!(app.unstage_selected().is_ok());
}

#[test]
fn review_marks_toggle() {
    let files = vec![
        entry("a.rs", Change::Modified, Section::Review),
        entry("b.rs", Change::Added, Section::Review),
    ];
    let mut app = review_app("review-marks", files);
    assert!(app.is_review());
    assert_eq!(app.reviewed_count(), 0);
    press(&mut app, key(' '));
    assert!(app.is_reviewed("a.rs"));
    assert_eq!(app.reviewed_count(), 1);
    press(&mut app, key('j'));
    press(&mut app, key(' '));
    assert_eq!(app.reviewed_count(), 2);
    press(&mut app, key(' '));
    assert!(!app.is_reviewed("b.rs"));
    assert!(app.is_reviewed("a.rs"));
    assert_eq!(app.reviewed_count(), 1);
}

#[test]
fn marks_only_in_review_mode() {
    let mut app = sample("marks-status");
    press(&mut app, key(' '));
    assert!(!app.is_reviewed("docs/guide.md"));
    assert_eq!(app.reviewed_count(), 0);
}

#[test]
fn key_commands() {
    let app = sample("commands");
    assert_eq!(key_command(&app, key('q'), 20), Command::Quit);
    assert_eq!(key_command(&app, ctrl('u'), 20), Command::ScrollUp(10));
    assert_eq!(key_command(&app, key('u'), 20), Command::Unstage);
    assert_eq!(key_command(&app, ctrl('h'), 20), Command::Ignore);
    assert_eq!(key_command(&app, special(Key::Left), 20), Command::FocusStatus);
    assert_eq!(key_command(&app, key('G'), 20), Command::Ignore);
    assert_eq!(key_command(&app, key('\\'), 20), Command::SearchCancel);
    assert_eq!(key_command(&app, key('r'), 20), Command::Refresh);
    assert_eq!(key_command(&app, special(Key::Other), 20), Command::Ignore);
}

#[test]
fn command_line() {
    assert_eq!(parse_args(&vec![]), Ok(None));
    assert_eq!(
        parse_args(&vec!["main...HEAD".to_string()]),
        Ok(Some("main...HEAD".to_string()))
    );
    assert_eq!(parse_args(&vec!["".to_string()]), Ok(Some(String::new())));
    let usage = Err("Usage: gitty [<revspec>]".to_string());
    assert_eq!(parse_args(&vec!["-h".to_string()]), usage);
    assert_eq!(parse_args(&vec!["a".to_string(), "b".to_string()]), usage);
}

#[test]
fn quit_key() {
    let mut app = sample("quit");
    press(&mut app, key('q'));
    assert!(app.should_quit);
}

#[test]
fn keys_keep_the_selection_on_the_list() {
    let mut app = sample("keys-on-list");
    let keys = [
        key('j'), key('j'), key('j'), key('j'), key('j'), key('k'), key('/'), key('r'),
        key('s'), special(Key::Enter), key('n'), key('n'), key('N'), key('N'), key('N'),
        special(Key::Esc), key('k'), key('k'), key('k'), key('k'), key('G'), key('l'),
        key('g'), key('g'), ctrl('d'), key('h'), key('j'),
    ];
    for k in keys {
        press(&mut app, k);
        assert!(app.selected < app.files.len(), "after {k:?}");
    }
    let mut empty = app_with("keys-empty", vec![]);
    for k in [key('j'), key('k'), key('/'), key('x'), special(Key::Enter), key('n')] {
        press(&mut empty, k);
        assert_eq!(empty.selected, 0);
    }
}

#[test]
fn submitted_search_selects_a_match() {
    for (q, sel) in [("APP", 3usize), ("app", 3), ("Guide", 1), ("md", 2), ("ne", 0)] {
        let mut app = sample("search-selects");
        app.selected = sel;
        type_query(&mut app, q);
        press(&mut app, special(Key::Enter));
        if matches!(app.search, Search::Active { .. }) {
            let path = app.files[app.selected].path.clone();
            let lower = !q.chars().any(|c| c.is_uppercase());
            let (hay, needle) = if lower {
                (path.to_lowercase(), q.to_lowercase())
            } else {
                (path, q.to_string())
            };
            assert!(hay.contains(&needle), "{q} selected {hay}");
        }
    }
}

#[test]
fn after_the_editor() {
    let mut app = sample("after-edit");
    app.selected = 3;
    press(&mut app, key('e'));
    assert_eq!(app.take_edit_request().as_deref(), Some("src/main.rs"));
    assert_eq!(app.edit_request, None);
    assert_eq!(app.take_edit_request(), None);
    app.finish_edit(Err("no such editor".to_string())).unwrap();
    assert_eq!(app.status_msg.as_deref(), Some("editor failed: no such editor"));
    assert_eq!(app.files.len(), 4);
    // A clean, empty repository: the reload empties the list.
    app.finish_edit(Ok(())).unwrap();
    assert!(app.files.is_empty());
    assert_eq!(app.selected, 0);
    assert_eq!(app.diff_scroll, 0);
}

#[test]
fn search_matches_list_each_path_once() {
    let mut app = app_with(
        "matches-once",
        vec![
            entry("src/lib.rs", Change::Modified, Section::Staged),
            entry("README.md", Change::Modified, Section::Unstaged),
            entry("src/lib.rs", Change::Modified, Section::Unstaged),
        ],
    );
    type_query(&mut app, "lib");
    press(&mut app, special(Key::Enter));
    match &app.search {
        Search::Active { matches, order, .. } => {
            assert_eq!(order, &vec![0, 2]);
            assert_eq!(matches, &vec!["src/lib.rs".to_string()]);
        }
        _ => panic!("active search expected"),
    }
    assert!(app.is_match("src/lib.rs"));
    assert!(!app.is_match("README.md"));
}

#[test]
fn well_formedness_checks_search_and_cache() {
    let cached = |p: &str, s: Section| CachedDiff {
        path: p.to_string(),
        section: s,
        text: DiffText::Plain(String::new()),
    };
    let mut app = sample("wf-check");
    assert!(app.is_wf());
    app.diff_cache = vec![cached("a", Section::Staged), cached("a", Section::Unstaged)];
    assert!(cache_keys_distinct(&app.diff_cache));
    assert!(app.is_wf());
    app.diff_cache.push(cached("a", Section::Staged));
    assert!(!cache_keys_distinct(&app.diff_cache));
    assert!(!app.is_wf());
    app.diff_cache.clear();
    app.search = Search::Active {
        query: "x".to_string(),
        matches: vec![],
        cursor: 2,
        order: vec![0, 1],
    };
    assert!(!app.is_wf());
    app.search = Search::Active {
        query: "x".to_string(),
        matches: vec![],
        cursor: 0,
        order: vec![],
    };
    assert!(!app.is_wf());
}

#[test]
fn ctrl_d_and_ctrl_u_move_half_a_page() {
    let mut app = sample("half-page");
    assert_eq!(key_command(&app, ctrl('d'), 61), Command::ScrollDown(30));
    assert_eq!(key_command(&app, ctrl('u'), 1), Command::ScrollUp(0));
    handle_key(&mut app, ctrl('d'), 60).unwrap();
    assert_eq!(app.diff_scroll, 30);
    handle_key(&mut app, ctrl('d'), 8).unwrap();
    assert_eq!(app.diff_scroll, 34);
    handle_key(&mut app, ctrl('u'), 60).unwrap();
    assert_eq!(app.diff_scroll, 4);
    handle_key(&mut app, ctrl('u'), 60).unwrap();
    assert_eq!(app.diff_scroll, 0);
    assert_eq!(gitty::ui::diff_rows(40), 37);
    assert_eq!(gitty::ui::diff_rows(2), 0);
}

#[test]
fn the_selection_is_what_gets_staged() {
    let mut app = sample("requests");
    app.selected = 2;
    assert_eq!(app.stage_request(), Some(("src/gone.rs".to_string(), Change::Deleted)));
    assert_eq!(app.unstage_request(), None);
    app.selected = 0;
    assert_eq!(app.stage_request(), None);
    assert_eq!(app.unstage_request(), Some("docs/guide.md".to_string()));
    app.selected = 9;
    assert_eq!(app.stage_request(), None);
    assert_eq!(app.unstage_request(), None);
    let mut review = review_app("requests-review", vec![entry("a", Change::Added, Section::Review)]);
    review.selected = 0;
    assert_eq!(review.stage_request(), None);
    assert_eq!(review.unstage_request(), None);
}

#[test]
fn paths_with_nul_are_not_handed_to_git() {
    let mut app = app_with("nul-path", vec![entry("bad\0name", Change::Modified, Section::Unstaged)]);
    let f = app.files[0].clone();
    match app.compute_patch(&f) {
        Err(gitty::git::Failure::NulInPath(p)) => assert_eq!(p, "bad\0name"),
        _ => panic!("a NUL in a path is refused"),
    }
    app.pending = Some(Confirm::Discard { path: "bad\0name".to_string(), change: Change::Modified });
    match app.confirm_yes() {
        Err(e) => assert_eq!(e.message(), "path \"bad\\0name\" contains a nul byte"),
        Ok(_) => panic!("a NUL in a path is refused"),
    }
    assert!(app.pending.is_none());
}

#[test]
fn stable_listing_keeps_ties_in_order() {
    let e = |p: &str, c: Change| FileEntry { path: p.to_string(), old_path: None, change: c, section: Section::Unstaged };
    let sorted = gitty::order::sort_listing(vec![
        e("b", Change::Modified),
        e("a", Change::Deleted),
        e("b", Change::Untracked),
        e("a", Change::Added),
    ]);
    let shape: Vec<(&str, Change)> = sorted.iter().map(|f| (f.path.as_str(), f.change)).collect();
    assert_eq!(
        shape,
        vec![("a", Change::Deleted), ("a", Change::Added), ("b", Change::Modified), ("b", Change::Untracked)]
    );
}
