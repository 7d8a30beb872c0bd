//! What the screen shows, short of drawing it: the rows of the file list, the
//! status bar's text, the help, where a popup goes, and how changes and diff
//! lines are colored.
use vstd::prelude::*;

use crate::app::{count_marked, count_section, reviewed_paths, search_matches, App, Mode, Search};
use crate::git::{Change, FileEntry, Section};
use crate::text::{chars_of, decimal, push_decimal};

verus! {

/// The color a change is shown in.
#[derive(Debug, Clone, Copy, PartialEq, Eq, Structural)]
pub enum Tint {
    Green,
    Yellow,
    Red,
    Blue,
    Magenta,
}

pub open spec fn tint_of(c: Change) -> Tint {
    match c {
        Change::Added | Change::Untracked => Tint::Green,
        Change::Modified | Change::Typechange => Tint::Yellow,
        Change::Deleted => Tint::Red,
        Change::Renamed => Tint::Blue,
        Change::Conflicted => Tint::Magenta,
    }
}

/// The color of a change's code in the file list.
pub fn change_tint(c: Change) -> (t: Tint)
    ensures
        t == tint_of(c),
{
    match c {
        Change::Added | Change::Untracked => Tint::Green,
        Change::Modified | Change::Typechange => Tint::Yellow,
        Change::Deleted => Tint::Red,
        Change::Renamed => Tint::Blue,
        Change::Conflicted => Tint::Magenta,
    }
}

/// How a line of an unhighlighted diff is styled.
#[derive(Debug, Clone, Copy, PartialEq, Eq, Structural)]
pub enum LineKind {
    /// `@@ ... @@`
    HunkHeader,
    /// `+++ ...` or `--- ...`
    FileHeader,
    Added,
    Removed,
    Context,
}

pub open spec fn line_kind_of(l: Seq<char>) -> LineKind {
    if l.len() >= 2 && l[0] == '@' && l[1] == '@' {
        LineKind::HunkHeader
    } else if l.len() >= 3 && ((l[0] == '+' && l[1] == '+' && l[2] == '+') || (l[0] == '-'
        && l[1] == '-' && l[2] == '-')) {
        LineKind::FileHeader
    } else if l.len() >= 1 && l[0] == '+' {
        LineKind::Added
    } else if l.len() >= 1 && l[0] == '-' {
        LineKind::Removed
    } else {
        LineKind::Context
    }
}

/// The style of one line of an unhighlighted diff, by how it starts.
pub fn line_kind(line: &str) -> (k: LineKind)
    ensures
        k == line_kind_of(line@),
{
    let l = chars_of(line);
    let n = l.len();
    if n >= 2 && l[0] == '@' && l[1] == '@' {
        LineKind::HunkHeader
    } else if n >= 3 && ((l[0] == '+' && l[1] == '+' && l[2] == '+') || (l[0] == '-' && l[1]
        == '-' && l[2] == '-')) {
        LineKind::FileHeader
    } else if n >= 1 && l[0] == '+' {
        LineKind::Added
    } else if n >= 1 && l[0] == '-' {
        LineKind::Removed
    } else {
        LineKind::Context
    }
}

/// A rectangle of the screen.
#[derive(Debug, Clone, Copy, PartialEq, Eq, Structural)]
pub struct Area {
    pub x: u16,
    pub y: u16,
    pub width: u16,
    pub height: u16,
}

pub open spec fn min_u16(a: u16, b: u16) -> u16 {
    if a < b {
        a
    } else {
        b
    }
}

/// A `width` by `height` rectangle centered in `area`, shrunk to leave a
/// margin of at least one cell on each side.
pub fn centered_rect(width: u16, height: u16, area: Area) -> (r: Area)
    requires
        area.x + (area.width - min_u16(width, area.width.saturating_sub(2))) / 2 <= u16::MAX,
        area.y + (area.height - min_u16(height, area.height.saturating_sub(2))) / 2 <= u16::MAX,
    ensures
        r.width == min_u16(width, area.width.saturating_sub(2)),
        r.height == min_u16(height, area.height.saturating_sub(2)),
        r.x == area.x + (area.width - r.width) / 2,
        r.y == area.y + (area.height - r.height) / 2,
{
    let w = if width < area.width.saturating_sub(2) {
        width
    } else {
        area.width.saturating_sub(2)
    };
    let h = if height < area.height.saturating_sub(2) {
        height
    } else {
        area.height.saturating_sub(2)
    };
    Area {
        x: area.x + (area.width.saturating_sub(w)) / 2,
        y: area.y + (area.height.saturating_sub(h)) / 2,
        width: w,
        height: h,
    }
}

/// How many lines of text the diff pane shows on a screen `height` rows
/// high: all rows but the status bar's, less the pane's top and bottom border.
pub open spec fn diff_rows_of(height: u16) -> u16 {
    height.saturating_sub(1).saturating_sub(2)
}

/// How many lines of text the diff pane shows on a screen `height` rows high.
pub fn diff_rows(height: u16) -> (r: u16)
    ensures
        r == diff_rows_of(height),
{
    height.saturating_sub(1).saturating_sub(2)
}

/// `s` cut to at most `max` characters, keeping its end behind an ellipsis.
pub open spec fn truncated(s: Seq<char>, max: nat) -> Seq<char> {
    if max == 0 {
        seq![]
    } else if s.len() <= max {
        s
    } else {
        seq!['\u{2026}'] + s.skip(s.len() - (max - 1))
    }
}

/// Fits a path into `max` characters by cutting its start.
pub fn truncate_path_left(s: &str, max: usize) -> (r: String)
    ensures
        r@ == truncated(s@, max as nat),
        r@.len() <= max,
{
    if max == 0 {
        return String::new();
    }
    let v = chars_of(s);
    let count = v.len();
    if count <= max {
        return String::from_str(s);
    }
    let take = max - 1;
    let skip = count - take;
    let mut out = String::new();
    out.push('\u{2026}');
    for i in skip..count
        invariant
            v@ == s@,
            count == v@.len(),
            skip <= count,
            out@ == seq!['\u{2026}'] + s@.subrange(skip as int, i as int),
    {
        out.push(v[i]);
        assert(s@.subrange(skip as int, i + 1) =~= s@.subrange(skip as int, i as int).push(
            v@[i as int],
        ));
    }
    assert(s@.subrange(skip as int, count as int) =~= s@.skip(skip as int));
    out
}

/// How the path of a file row is shown.
#[derive(Debug, Clone, Copy, PartialEq, Eq, Structural)]
pub enum PathLook {
    /// Highlighted as a search match.
    Match,
    /// Crossed out as reviewed, on the selected row.
    Reviewed,
    /// Crossed out and dimmed as reviewed.
    ReviewedDim,
    Normal,
}

/// How the review checkbox of a file row is shown.
#[derive(Debug, Clone, Copy, PartialEq, Eq, Structural)]
pub enum MarkLook {
    /// `[x]`, in green.
    Checked,
    /// `[ ]` on the selected row.
    Open,
    /// `[ ]`, dimmed.
    OpenDim,
}

/// A search match stands out first; a reviewed path is crossed out, and
/// dimmed unless it is selected.
pub open spec fn path_look_of(matched: bool, reviewed: bool, selected: bool) -> PathLook {
    if matched {
        PathLook::Match
    } else if reviewed {
        if selected {
            PathLook::Reviewed
        } else {
            PathLook::ReviewedDim
        }
    } else {
        PathLook::Normal
    }
}

/// A reviewed entry is checked; an open box is dimmed unless it is selected.
pub open spec fn mark_look_of(reviewed: bool, selected: bool) -> MarkLook {
    if reviewed {
        MarkLook::Checked
    } else if selected {
        MarkLook::Open
    } else {
        MarkLook::OpenDim
    }
}

/// How the path of a file row is shown.
pub fn path_look(matched: bool, reviewed: bool, selected: bool) -> (l: PathLook)
    ensures
        l == path_look_of(matched, reviewed, selected),
{
    if matched {
        PathLook::Match
    } else if reviewed {
        if selected {
            PathLook::Reviewed
        } else {
            PathLook::ReviewedDim
        }
    } else {
        PathLook::Normal
    }
}

/// How the review checkbox of a file row is shown.
pub fn mark_look(reviewed: bool, selected: bool) -> (l: MarkLook)
    ensures
        l == mark_look_of(reviewed, selected),
{
    if reviewed {
        MarkLook::Checked
    } else if selected {
        MarkLook::Open
    } else {
        MarkLook::OpenDim
    }
}

/// One row of the file list: a section header or a file.
pub enum Row {
    Header(Section),
    File(FileRow),
}

/// What the file list shows of one entry.
pub struct FileRow {
    /// The path (as `old → new` for a rename), cut to the row's width.
    pub text: String,
    /// The one-letter code of the change, and its color.
    pub code: char,
    pub tint: Tint,
    /// In review mode, whether the entry is checked off.
    pub mark: Option<bool>,
    /// The entry matches the active search.
    pub matched: bool,
    /// The entry is marked reviewed (review mode only).
    pub reviewed: bool,
    /// The entry is the selected one.
    pub selected: bool,
    /// How the path is shown.
    pub path_look: PathLook,
    /// The change code is dimmed (a reviewed entry that is not selected).
    pub code_dim: bool,
    /// In review mode, how the checkbox is shown.
    pub mark_look: Option<MarkLook>,
}

/// The label of a section header; review entries have no header.
pub open spec fn header_label(s: Section) -> Option<Seq<char>> {
    match s {
        Section::Staged => Some("Staged"@),
        Section::Unstaged => Some("Changes"@),
        Section::Review => None,
    }
}

/// The text of a section header.
pub fn section_label(s: Section) -> (r: Option<String>)
    ensures
        match r {
            Some(l) => header_label(s) == Some(l@),
            None => header_label(s) is None,
        },
{
    match s {
        Section::Staged => Some(String::from_str("Staged")),
        Section::Unstaged => Some(String::from_str("Changes")),
        Section::Review => None,
    }
}

/// The text shown for an entry: `old → new` for a rename, else its path.
pub open spec fn display_of(f: FileEntry) -> Seq<char> {
    match f.old_path {
        Some(o) => o@ + " \u{2192} "@ + f.path@,
        None => f.path@,
    }
}

/// How many characters of a path fit in a list `width` cells wide.
pub open spec fn path_width(width: u16, review: bool) -> usize {
    let w = width.saturating_sub(6) as usize;
    if review {
        w.saturating_sub(4)
    } else {
        w
    }
}

/// A header goes before entry `i`: the first entry of a new section that has one.
pub open spec fn header_before(files: Seq<FileEntry>, i: int) -> bool {
    files[i].section != Section::Review && (i == 0 || files[i - 1].section != files[i].section)
}

/// The number of rows the first `n` entries take.
pub open spec fn row_count(files: Seq<FileEntry>, n: int) -> nat
    decreases n,
{
    if n <= 0 {
        0
    } else {
        row_count(files, n - 1) + if header_before(files, n - 1) {
            2nat
        } else {
            1nat
        }
    }
}

/// Row `row` shows entry `i` of the state `app` in a list of paths `max` wide.
pub open spec fn file_row_ok(app: App, i: int, max: usize, row: Row) -> bool {
    let f = app.files@[i];
    let review = app.in_review();
    let reviewed = review && reviewed_paths(app.mode).contains(f.path@);
    row matches Row::File(fr) && fr.text@ == truncated(display_of(f), max as nat) && fr.code
        == f.change.spec_code() && fr.tint == tint_of(f.change) && fr.mark == (if review {
        Some(reviewed)
    } else {
        None
    }) && fr.matched == search_matches(app.search, f.path@) && fr.reviewed == reviewed
        && fr.selected == (i == app.selected) && fr.path_look == path_look_of(
        fr.matched,
        reviewed,
        fr.selected,
    ) && fr.code_dim == (reviewed && !fr.selected) && fr.mark_look == (if review {
        Some(mark_look_of(reviewed, fr.selected))
    } else {
        None
    })
}

/// The rows of the first `n` entries: each entry's row, after a header where a section starts.
pub open spec fn rows_ok(app: App, max: usize, rows: Seq<Row>, n: int) -> bool {
    &&& rows.len() == row_count(app.files@, n)
    &&& forall|i: int|
        0 <= i < n && #[trigger] header_before(app.files@, i) ==> rows[row_count(app.files@, i) as int]
            == Row::Header(app.files@[i].section)
    &&& forall|i: int|
        0 <= i < n ==> file_row_ok(app, i, max, #[trigger] rows[row_count(app.files@, i + 1) - 1])
}

/// More entries never take fewer rows.
pub proof fn lemma_row_count_monotone(files: Seq<FileEntry>, a: int, b: int)
    requires
        0 <= a <= b,
    ensures
        row_count(files, a) <= row_count(files, b),
    decreases b - a,
{
    if a < b {
        lemma_row_count_monotone(files, a, b - 1);
    }
}

/// The rows of the file list for a list `width` cells wide, with the
/// position of the selected entry's row.
pub fn change_rows(app: &App, width: u16) -> (r: (Vec<Row>, Option<usize>))
    ensures
        rows_ok(*app, path_width(width, app.in_review()), r.0@, app.files@.len() as int),
        r.1 == if app.selected < app.files@.len() {
            Some((row_count(app.files@, app.selected + 1) - 1) as usize)
        } else {
            None
        },
{
    let review = app.is_review();
    let w = (width.saturating_sub(6)) as usize;
    let max = if review {
        w.saturating_sub(4)
    } else {
        w
    };
    let mut rows: Vec<Row> = Vec::new();
    let mut visual: Option<usize> = None;
    let n = app.files.len();
    for i in 0..n
        invariant
            n == app.files@.len(),
            review == app.in_review(),
            max == path_width(width, review),
            rows_ok(*app, max, rows@, i as int),
            rows@.len() <= 2 * i,
            visual == if app.selected < i {
                Some((row_count(app.files@, app.selected + 1) - 1) as usize)
            } else {
                None
            },
    {
        let ghost before = rows@;
        let f = &app.files[i];
        let header = i == 0 || app.files[i - 1].section != f.section;
        if header && f.section != Section::Review {
            rows.push(Row::Header(f.section));
        }
        if i == app.selected {
            visual = Some(rows.len());
        }
        let reviewed = review && app.is_reviewed(f.path.as_str());
        let display = match &f.old_path {
            Some(o) => {
                let mut d = o.clone();
                d.append(" \u{2192} ");
                d.append(f.path.as_str());
                d
            },
            None => f.path.clone(),
        };
        let text = truncate_path_left(display.as_str(), max);
        let matched = app.is_match(f.path.as_str());
        let selected = i == app.selected;
        rows.push(
            Row::File(
                FileRow {
                    text,
                    code: f.change.code(),
                    tint: change_tint(f.change),
                    mark: if review {
                        Some(reviewed)
                    } else {
                        None
                    },
                    matched,
                    reviewed,
                    selected,
                    path_look: path_look(matched, reviewed, selected),
                    code_dim: reviewed && !selected,
                    mark_look: if review {
                        Some(mark_look(reviewed, selected))
                    } else {
                        None
                    },
                },
            ),
        );
        proof {
            assert(rows@.len() == row_count(app.files@, i + 1));
            assert forall|j: int| 0 <= j < i + 1 && #[trigger] header_before(app.files@, j) implies rows@[row_count(app.files@, j) as int]
                    == Row::Header(app.files@[j].section) by {
                if j < i {
                    lemma_row_count_monotone(app.files@, j + 1, i as int);
                    lemma_row_count_monotone(app.files@, j, j + 1);
                    assert(rows@[row_count(app.files@, j) as int] == before[row_count(app.files@, j) as int]);
                }
            }
            assert forall|j: int| 0 <= j < i + 1 implies file_row_ok(*app, j, max, #[trigger] rows@[row_count(app.files@, j + 1) - 1]) by {
                if j < i {
                    lemma_row_count_monotone(app.files@, j + 1, i as int);
                    assert(rows@[row_count(app.files@, j + 1) - 1] == before[row_count(app.files@, j + 1) - 1]);
                }
            }
        }
    }
    (rows, visual)
}

/// A span of the status bar: the search being typed, the active search, or
/// the branch (or review) summary with the message.
pub open spec fn status_text_of(app: App, branch: Seq<char>) -> Seq<char> {
    match app.search {
        Search::Input(q) => "/"@ + q@ + "\u{258f}"@,
        Search::Active { query, order, cursor, .. } => " /"@ + query@ + "  ["@ + decimal(
            (cursor + 1) as nat,
        ) + "/"@ + decimal(order@.len()) + "]  n next  N prev  Esc clear"@,
        Search::Off => {
            let trailer = match app.status_msg {
                Some(m) => "  "@ + m@,
                None => "  ? help  q quit"@,
            };
            match app.mode {
                Mode::Review { spec, .. } => " review \u{b7} "@ + spec@ + "  "@ + decimal(
                    count_marked(app.files@, reviewed_paths(app.mode)),
                ) + "/"@ + decimal(app.files@.len()) + " reviewed"@ + trailer,
                Mode::Status => " "@ + branch + "  "@ + decimal(
                    count_section(app.files@, Section::Staged),
                ) + " staged  "@ + decimal(count_section(app.files@, Section::Unstaged))
                    + " unstaged"@ + trailer,
            }
        },
    }
}

/// The status bar's text, with `branch` as the branch name.
pub fn status_text_with(app: &App, branch: &str) -> (r: String)
    requires
        app.wf(),
    ensures
        r@ == status_text_of(*app, branch@),
{
    match &app.search {
        Search::Input(q) => {
            let mut s = String::from_str("/");
            s.append(q.as_str());
            s.append("\u{258f}");
            s
        },
        Search::Active { query, order, cursor, .. } => {
            let total = order.len();
            let mut s = String::from_str(" /");
            s.append(query.as_str());
            s.append("  [");
            push_decimal(&mut s, *cursor + 1);
            s.append("/");
            push_decimal(&mut s, total);
            s.append("]  n next  N prev  Esc clear");
            s
        },
        Search::Off => {
            let trailer = match &app.status_msg {
                Some(m) => {
                    let mut t = String::from_str("  ");
                    t.append(m.as_str());
                    t
                },
                None => String::from_str("  ? help  q quit"),
            };
            let mut s = match &app.mode {
                Mode::Review { spec, .. } => {
                    let mut s = String::from_str(" review \u{b7} ");
                    s.append(spec.as_str());
                    s.append("  ");
                    push_decimal(&mut s, app.reviewed_count());
                    s.append("/");
                    push_decimal(&mut s, app.files.len());
                    s.append(" reviewed");
                    s
                },
                Mode::Status => {
                    let mut s = String::from_str(" ");
                    s.append(branch);
                    s.append("  ");
                    push_decimal(&mut s, app.staged_count());
                    s.append(" staged  ");
                    push_decimal(&mut s, app.unstaged_count());
                    s.append(" unstaged");
                    s
                },
            };
            s.append(trailer.as_str());
            s
        },
    }
}

/// The status bar's text; the branch name is read from the repository only
/// where it is shown.
pub fn status_text(app: &App) -> (r: String)
    requires
        app.wf(),
    ensures
        exists|b: Seq<char>| #[trigger] status_text_of(*app, b) == r@,
{
    let shows_branch = match (&app.search, &app.mode) {
        (Search::Off, Mode::Status) => true,
        _ => false,
    };
    let branch = if shows_branch {
        app.branch_name()
    } else {
        String::new()
    };
    let r = status_text_with(app, branch.as_str());
    assert(status_text_of(*app, branch@) == r@);
    r
}

/// How a line of the help is shown.
#[derive(Debug, Clone, Copy, PartialEq, Eq, Structural)]
pub enum HelpStyle {
    Title,
    Plain,
    Dim,
}

/// One line of the help.
pub struct HelpLine {
    pub text: String,
    pub style: HelpStyle,
}

pub open spec fn help_line_views(v: Seq<HelpLine>) -> Seq<(Seq<char>, HelpStyle)> {
    v.map_values(|l: HelpLine| (l.text@, l.style))
}

pub open spec fn when(c: bool, s: Seq<(Seq<char>, HelpStyle)>) -> Seq<(Seq<char>, HelpStyle)> {
    if c {
        s
    } else {
        seq![]
    }
}

/// The help: the keys, without those that review mode disables, and with
/// the review key in review mode.
pub open spec fn help_of(review: bool) -> Seq<(Seq<char>, HelpStyle)> {
    seq![
        ("Keybindings"@, HelpStyle::Title),
        (""@, HelpStyle::Plain),
        ("  h / l (\u{2190}/\u{2192})   focus status / diff pane"@, HelpStyle::Plain),
        ("  j / k (\u{2193}/\u{2191})   move down / up (or scroll diff when focused)"@, HelpStyle::Plain),
        ("  gg / G        top / bottom of diff (when diff focused)"@, HelpStyle::Plain),
        ("  Ctrl-d / -u   half-page scroll diff"@, HelpStyle::Plain),
    ] + when(
        !review,
        seq![
            ("  s             stage selected"@, HelpStyle::Plain),
            ("  u             unstage selected"@, HelpStyle::Plain),
            ("  X             discard (confirm with y)"@, HelpStyle::Plain),
        ],
    ) + seq![
        ("  / n N         search file names / next / prev"@, HelpStyle::Plain),
        ("  Esc / \\       clear search highlight"@, HelpStyle::Plain),
    ] + when(review, seq![("  Space         toggle reviewed"@, HelpStyle::Plain)]) + when(
        !review,
        seq![("  e             edit selected file in $EDITOR"@, HelpStyle::Plain)],
    ) + seq![
        ("  r             refresh"@, HelpStyle::Plain),
        ("  ?             toggle this help"@, HelpStyle::Plain),
        ("  q             quit"@, HelpStyle::Plain),
        (""@, HelpStyle::Plain),
    ] + when(review, seq![("review mode is read-only"@, HelpStyle::Dim)]) + seq![
        ("? / Esc / q to close"@, HelpStyle::Dim),
    ]
}

fn line(text: &str, style: HelpStyle) -> (l: HelpLine)
    ensures
        l.text@ == text@,
        l.style == style,
{
    HelpLine { text: String::from_str(text), style }
}

fn push_line(v: &mut Vec<HelpLine>, text: &str, style: HelpStyle)
    ensures
        help_line_views(final(v)@) == help_line_views(old(v)@).push((text@, style)),
{
    let ghost before = v@;
    v.push(line(text, style));
    assert(help_line_views(v@) =~= help_line_views(before).push((text@, style)));
}

/// The lines of the help.
pub fn help_lines(review: bool) -> (v: Vec<HelpLine>)
    ensures
        help_line_views(v@) == help_of(review),
{
    let mut v: Vec<HelpLine> = Vec::new();
    push_line(&mut v, "Keybindings", HelpStyle::Title);
    push_line(&mut v, "", HelpStyle::Plain);
    push_line(&mut v, "  h / l (\u{2190}/\u{2192})   focus status / diff pane", HelpStyle::Plain);
    push_line(&mut v, "  j / k (\u{2193}/\u{2191})   move down / up (or scroll diff when focused)", HelpStyle::Plain);
    push_line(&mut v, "  gg / G        top / bottom of diff (when diff focused)", HelpStyle::Plain);
    push_line(&mut v, "  Ctrl-d / -u   half-page scroll diff", HelpStyle::Plain);
    if !review {
        push_line(&mut v, "  s             stage selected", HelpStyle::Plain);
        push_line(&mut v, "  u             unstage selected", HelpStyle::Plain);
        push_line(&mut v, "  X             discard (confirm with y)", HelpStyle::Plain);
    }
    push_line(&mut v, "  / n N         search file names / next / prev", HelpStyle::Plain);
    push_line(&mut v, "  Esc / \\       clear search highlight", HelpStyle::Plain);
    if review {
        push_line(&mut v, "  Space         toggle reviewed", HelpStyle::Plain);
    }
    if !review {
        push_line(&mut v, "  e             edit selected file in $EDITOR", HelpStyle::Plain);
    }
    push_line(&mut v, "  r             refresh", HelpStyle::Plain);
    push_line(&mut v, "  ?             toggle this help", HelpStyle::Plain);
    push_line(&mut v, "  q             quit", HelpStyle::Plain);
    push_line(&mut v, "", HelpStyle::Plain);
    if review {
        push_line(&mut v, "review mode is read-only", HelpStyle::Dim);
    }
    push_line(&mut v, "? / Esc / q to close", HelpStyle::Dim);
    assert(help_line_views(v@) =~= help_of(review));
    v
}

} // verus!
