use gitty::git::{Change, FileEntry, Section};
use gitty::search::{
    find_file_matches, is_smart_lower, next_match_from, position_of, positions_containing,
};
use gitty::text::{
    chars_of, count_lines, is_uppercase, push_decimal, quoted, text_contains, to_lowercase,
    utf8_text,
};

fn entry(p: &str) -> FileEntry {
    FileEntry {
        path: p.to_string(),
        old_path: None,
        change: Change::Modified,
        section: Section::Unstaged,
    }
}

#[test]
fn line_counts_follow_str_lines() {
    for s in ["", "a", "a\n", "a\nb", "\n\n", "x\r\ny\r\n", "\n"] {
        assert_eq!(count_lines(s), s.lines().count(), "for {s:?}");
    }
    assert_eq!(count_lines("one\ntwo\nthree"), 3);
}

#[test]
fn decimals() {
    for n in [0usize, 7, 10, 99, 100, 1234, usize::MAX] {
        let mut s = String::from("#");
        push_decimal(&mut s, n);
        assert_eq!(s, format!("#{n}"));
    }
}

#[test]
fn quoting_escapes() {
    assert_eq!(quoted("abc"), "\"abc\"");
    assert_eq!(quoted("a\"b"), "\"a\\\"b\"");
    assert_eq!(quoted("tab\t"), "\"tab\\t\"");
}

#[test]
fn lowercase_and_uppercase() {
    assert_eq!(to_lowercase("ReadMe.MD"), "readme.md");
    assert!(is_uppercase('Q'));
    assert!(!is_uppercase('q'));
    assert!(!is_uppercase('1'));
}

#[test]
fn utf8_decoding() {
    assert_eq!(utf8_text(b"hi"), Some("hi".to_string()));
    assert_eq!(utf8_text(&[0xc3, 0xa9]), Some("\u{e9}".to_string()));
    assert_eq!(utf8_text(&[0xff]), None);
}

#[test]
fn chars_and_contains() {
    assert_eq!(chars_of("h\u{e9}!"), vec!['h', '\u{e9}', '!']);
    assert!(text_contains("src/app.rs", "app"));
    assert!(text_contains("abc", ""));
    assert!(text_contains("abc", "abc"));
    assert!(!text_contains("ab", "abc"));
    assert!(!text_contains("abc", "ac"));
    assert!(text_contains("aab", "ab"));
}

#[test]
fn smart_case_search() {
    let files = vec![entry("README.md"), entry("src/readme.rs"), entry("docs/Guide.md")];
    assert!(is_smart_lower("readme"));
    assert!(!is_smart_lower("README"));
    // all lowercase: case-insensitive
    assert_eq!(find_file_matches(&files, "readme"), vec![0, 1]);
    // an uppercase letter: case-sensitive
    assert_eq!(find_file_matches(&files, "README"), vec![0]);
    assert_eq!(find_file_matches(&files, "guide"), vec![2]);
    assert_eq!(find_file_matches(&files, "Guide"), vec![2]);
    assert_eq!(find_file_matches(&files, "nothing"), Vec::<usize>::new());
    assert_eq!(find_file_matches(&files, ""), vec![0, 1, 2]);
}

#[test]
fn positions_of_texts() {
    let hays = vec!["abc".to_string(), "xyz".to_string(), "zab".to_string()];
    assert_eq!(positions_containing(&hays, "ab"), vec![0, 2]);
}

#[test]
fn search_starts_at_or_after_selection() {
    let order = vec![1, 4, 7];
    assert_eq!(next_match_from(&order, 0), 0);
    assert_eq!(next_match_from(&order, 4), 1);
    assert_eq!(next_match_from(&order, 5), 2);
    assert_eq!(next_match_from(&order, 8), 0);
    assert_eq!(next_match_from(&vec![], 3), 0);
}

#[test]
fn position_or_zero() {
    let order = vec![3, 5, 9];
    assert_eq!(position_of(&order, 5), 1);
    assert_eq!(position_of(&order, 9), 2);
    assert_eq!(position_of(&order, 4), 0);
}

#[test]
fn searching_a_full_path_finds_it() {
    let files = vec![entry("README.md"), entry("src/readme.rs"), entry("docs/Guide.md"), entry("")];
    for (i, f) in files.iter().enumerate() {
        assert!(find_file_matches(&files, &f.path).contains(&i), "for {:?}", f.path);
    }
}

#[test]
fn longer_case_sensitive_queries_match_less() {
    let files = vec![entry("Src/App.rs"), entry("Src/Apple.rs"), entry("docs/App.md"), entry("Src/app.rs")];
    let short = find_file_matches(&files, "App");
    for q in ["App.", "Src/App", "Apple", "App.rs"] {
        for i in find_file_matches(&files, q) {
            assert!(short.contains(&i), "{q} matched {i}");
        }
    }
    assert_eq!(short, vec![0, 1, 2]);
}
