//! The viewer's state and every change a key can make to it.
use vstd::prelude::*;

use crate::git::{
    branch_name, diff_for, diff_for_review, discard, load_review, load_status, patch_text,
    review_entries, review_listing, spec_failure, stage, status_entries, status_listing, unstage,
    Change, DeltaRecord, DiffText, DiscardPlan, Failure, FileEntry, PatchLine, Section,
    StatusRecord,
};
use crate::search::{
    find_file_matches, increasing_below, lemma_index_of_in_range, match_order, next_match_from,
    next_match_index, position_of, position_or_first,
};
use crate::text::{count_lines, debug_quoted, line_count_of, no_nul, nul_free, quoted};

verus! {

/// An action that waits for a `y`.
#[derive(Debug)]
pub enum Confirm {
    Discard { path: String, change: Change },
}

/// Which pane has the focus.
#[derive(Debug, Clone, Copy, PartialEq, Eq, Structural)]
pub enum Pane {
    Status,
    Diff,
}

/// The file-name search: off, being typed, or active with its matches.
#[derive(Debug)]
pub enum Search {
    Off,
    Input(String),
    Active { query: String, matches: Vec<String>, cursor: usize, order: Vec<usize> },
}

/// What the viewer shows: the working tree, or the changes a revspec names.
pub enum Mode {
    Status,
    Review { spec: String, left: git2::Oid, right: git2::Oid, reviewed: Vec<String> },
}

/// A rendered diff kept for one entry of the list.
#[derive(Debug)]
pub struct CachedDiff {
    pub path: String,
    pub section: Section,
    pub text: DiffText,
}

/// A file or directory to delete from the working tree to finish a discard
/// (its path relative to the working directory).
#[derive(Debug)]
pub struct Removal {
    pub path: String,
}

/// The whole state of the viewer.
pub struct App {
    pub repo: git2::Repository,
    pub mode: Mode,
    pub files: Vec<FileEntry>,
    pub selected: usize,
    pub should_quit: bool,
    pub diff_cache: Vec<CachedDiff>,
    pub diff_scroll: u16,
    pub status_msg: Option<String>,
    pub pending: Option<Confirm>,
    pub show_help: bool,
    pub edit_request: Option<String>,
    pub focus: Pane,
    pub pending_g: bool,
    pub search: Search,
}

/// The views of a sequence of strings.
pub open spec fn views(v: Seq<String>) -> Seq<Seq<char>> {
    v.map_values(|s: String| s@)
}

/// `path` is the path of one of the entries at the given indices.
pub open spec fn path_among(files: Seq<FileEntry>, order: Seq<usize>, path: Seq<char>) -> bool {
    exists|k: int| 0 <= k < order.len() && #[trigger] files[order[k] as int].path@ == path
}

/// `m` lists the paths of the entries at the given indices, each once.
pub open spec fn lists_paths(m: Seq<String>, files: Seq<FileEntry>, order: Seq<usize>) -> bool {
    &&& views(m).no_duplicates()
    &&& forall|p: Seq<char>| #[trigger] views(m).contains(p) <==> path_among(files, order, p)
}

/// `path` is one of the matches of the search `s`.
pub open spec fn search_matches(s: Search, path: Seq<char>) -> bool {
    match s {
        Search::Active { matches, .. } => views(matches@).contains(path),
        _ => false,
    }
}

/// `m` is the message `text` as an optional string.
pub open spec fn message_is(m: Option<String>, text: Seq<char>) -> bool {
    m matches Some(s) && s@ == text
}

/// The effect of `App::search_start`.
pub open spec fn search_start_post(pre: App, post: App) -> bool {
    &&& post.search matches Search::Input(q) && q@ == Seq::<char>::empty()
    &&& post == (App { search: post.search, ..pre })
}

/// The effect of `App::search_input_push`.
pub open spec fn search_input_push_post(pre: App, post: App, c: char) -> bool {
    &&& match pre.search {
        Search::Input(q) => post.search matches Search::Input(q2) && q2@ == q@.push(
            c,
        ),
        _ => post.search == pre.search,
    }
    &&& post == (App { search: post.search, ..pre })
}

/// The effect of `App::search_input_pop`.
pub open spec fn search_input_pop_post(pre: App, post: App) -> bool {
    &&& match pre.search {
        Search::Input(q) => if q@.len() == 0 {
            post.search is Off
        } else {
            post.search matches Search::Input(q2) && q2@ == q@.drop_last()
        },
        _ => post.search == pre.search,
    }
    &&& post == (App { search: post.search, ..pre })
}

/// The effect of `App::search_cancel`.
pub open spec fn search_cancel_post(pre: App, post: App) -> bool {
    &&& post == (App { search: Search::Off, ..pre })
}

/// The effect of `App::search_submit`.
pub open spec fn search_submit_post(pre: App, post: App) -> bool {
    &&& match pre.search {
        Search::Input(q) => if q@.len() == 0 {
            post == (App { search: Search::Off, ..pre })
        } else {
            let order = match_order(pre.files@, q@);
            if order.len() == 0 {
                &&& message_is(post.status_msg, "no matches for "@ + debug_quoted(q@))
                &&& post == (App {
                    status_msg: post.status_msg,
                    search: Search::Off,
                    ..pre
                })
            } else {
                let next = next_match_index(order, pre.selected);
                &&& post.search matches Search::Active {
                    query,
                    matches,
                    cursor,
                    order: o,
                } && query == q && o@ == order && lists_paths(
                    matches@,
                    pre.files@,
                    order,
                ) && cursor == next
                &&& post == (App {
                    selected: order[next],
                    diff_scroll: 0,
                    search: post.search,
                    ..pre
                })
            }
        },
        _ => post == (App { search: Search::Off, ..pre }),
    }
}

/// The effect of `App::search_next`.
pub open spec fn search_next_post(pre: App, post: App) -> bool {
    &&& match pre.search {
        Search::Active { query, matches, cursor, order } => {
            let c = ((cursor + 1) % (order@.len() as int)) as usize;
            &&& post.search == (Search::Active { query, matches, cursor: c, order })
            &&& post == (App {
                selected: order@[c as int],
                diff_scroll: 0,
                search: post.search,
                ..pre
            })
        },
        _ => post == pre,
    }
}

/// The effect of `App::search_prev`.
pub open spec fn search_prev_post(pre: App, post: App) -> bool {
    &&& match pre.search {
        Search::Active { query, matches, cursor, order } => {
            let c = if cursor == 0 {
                (order@.len() - 1) as usize
            } else {
                (cursor - 1) as usize
            };
            &&& post.search == (Search::Active { query, matches, cursor: c, order })
            &&& post == (App {
                selected: order@[c as int],
                diff_scroll: 0,
                search: post.search,
                ..pre
            })
        },
        _ => post == pre,
    }
}

/// The effect of `App::focus_status`.
pub open spec fn focus_status_post(pre: App, post: App) -> bool {
    &&& post == (App { focus: Pane::Status, ..pre })
}

/// The effect of `App::focus_diff`.
pub open spec fn focus_diff_post(pre: App, post: App) -> bool {
    &&& post == (App { focus: Pane::Diff, ..pre })
}

/// The effect of `App::toggle_help`.
pub open spec fn toggle_help_post(pre: App, post: App) -> bool {
    &&& post == (App { show_help: !pre.show_help, ..pre })
}

/// The effect of `App::request_quit`.
pub open spec fn request_quit_post(pre: App, post: App) -> bool {
    &&& post == (App { should_quit: true, ..pre })
}

/// The effect of `App::move_down`.
pub open spec fn move_down_post(pre: App, post: App) -> bool {
    &&& post == if pre.selected + 1 < pre.files@.len() {
        App { selected: (pre.selected + 1) as usize, diff_scroll: 0, ..pre }
    } else {
        pre
    }
}

/// The effect of `App::move_up`.
pub open spec fn move_up_post(pre: App, post: App) -> bool {
    &&& post == if pre.selected > 0 {
        App { selected: (pre.selected - 1) as usize, diff_scroll: 0, ..pre }
    } else {
        pre
    }
}

/// The effect of `App::scroll_diff_down`.
pub open spec fn scroll_diff_down_post(pre: App, post: App, n: u16) -> bool {
    &&& post == (App {
        diff_scroll: pre.diff_scroll.saturating_add(n),
        ..pre
    })
}

/// The effect of `App::scroll_diff_up`.
pub open spec fn scroll_diff_up_post(pre: App, post: App, n: u16) -> bool {
    &&& post == (App {
        diff_scroll: pre.diff_scroll.saturating_sub(n),
        ..pre
    })
}

/// The effect of `App::scroll_diff_top`.
pub open spec fn scroll_diff_top_post(pre: App, post: App) -> bool {
    &&& post == (App { diff_scroll: 0, ..pre })
}

/// The effect of `App::request_edit`.
pub open spec fn request_edit_post(pre: App, post: App) -> bool {
    &&& match pre.current_file() {
        Some(f) if !pre.in_review() => if f.change == Change::Deleted {
            &&& message_is(post.status_msg, "file is deleted, nothing to edit"@)
            &&& post == (App { status_msg: post.status_msg, ..pre })
        } else {
            post == (App { edit_request: Some(f.path), ..pre })
        },
        _ => post == pre,
    }
}

/// The effect of `App::request_discard`.
pub open spec fn request_discard_post(pre: App, post: App) -> bool {
    &&& match pre.current_file() {
        Some(f) => if pre.in_review() || f.section != Section::Unstaged {
            &&& message_is(
                post.status_msg,
                "discard only applies to unstaged changes"@,
            )
            &&& post == (App { status_msg: post.status_msg, ..pre })
        } else {
            &&& message_is(post.status_msg, "discard "@ + f.path@ + "? (y/n)"@)
            &&& post == (App {
                pending: Some(Confirm::Discard { path: f.path, change: f.change }),
                status_msg: post.status_msg,
                ..pre
            })
        },
        _ => post == pre,
    }
}

/// The effect of `App::confirm_no`.
pub open spec fn confirm_no_post(pre: App, post: App) -> bool {
    &&& match pre.pending {
        Some(_) => {
            &&& message_is(post.status_msg, "cancelled"@)
            &&& post == (App {
                pending: None,
                status_msg: post.status_msg,
                ..pre
            })
        },
        None => post == pre,
    }
}

/// The effect of `App::toggle_reviewed`.
pub open spec fn toggle_reviewed_post(pre: App, post: App) -> bool {
    &&& match pre.current_file() {
        Some(f) if pre.in_review() => {
            &&& same_but_marks(pre.mode, post.mode)
            &&& reviewed_paths(post.mode) == toggled(
                reviewed_paths(pre.mode),
                f.path@,
            )
            &&& post == (App { mode: post.mode, ..pre })
        },
        _ => post == pre,
    }
}

/// The effect of `App::refresh`.
pub open spec fn refresh_post(pre: App, post: App, r: Result<(), Failure>) -> bool {
    &&& match r {
        Ok(()) => {
            &&& mode_reloaded(pre.mode, post.mode)
            &&& listing_for(post.mode, post.files@)
            &&& reload_state(
                App { mode: post.mode, ..pre },
                post,
                post.files@,
            )
        },
        Err(e) => reload_failure(pre.mode, e) && post == pre,
    }
}

/// The effect of `App::ensure_current_diff`: the selected entry's diff is
/// cached afterwards; where it was not, the patch computed for it (or the
/// failure's message) is appended, and nothing else changes.
pub open spec fn ensure_diff_post(pre: App, post: App) -> bool {
    &&& pre.current_file() is Some ==> current_cached(post) is Some
    &&& match pre.current_file() {
        Some(f) if cache_index(pre.diff_cache@, f.path@, f.section, 0) is None => {
            &&& post.diff_cache@.len() == pre.diff_cache@.len() + 1
            &&& post.diff_cache@.drop_last() == pre.diff_cache@
            &&& computed_entry(pre.mode, f, post.diff_cache@.last())
        },
        _ => post.diff_cache@ == pre.diff_cache@,
    }
    &&& pre.diff_cache@.is_prefix_of(post.diff_cache@)
    &&& post == (App { diff_cache: post.diff_cache, ..pre })
}

/// The effect of `App::finish_discard`: the list is reloaded and the message
/// says the change was discarded; on failure nothing changes.
pub open spec fn finish_discard_post(pre: App, post: App, r: Result<(), Failure>) -> bool {
    match r {
        Ok(()) => {
            &&& mode_reloaded(pre.mode, post.mode)
            &&& listing_for(post.mode, post.files@)
            &&& message_is(post.status_msg, "discarded"@)
            &&& reload_state(
                App { mode: post.mode, ..pre },
                App { status_msg: pre.status_msg, ..post },
                post.files@,
            )
        },
        Err(e) => reload_failure(pre.mode, e) && post == pre,
    }
}

/// The path and change that staging the selection hands to git: those of
/// the selected entry, where it is an unstaged entry of the working-tree list.
pub open spec fn stage_request_of(app: App) -> Option<(String, Change)> {
    match app.current_file() {
        Some(f) if !app.in_review() && f.section == Section::Unstaged => Some((f.path, f.change)),
        _ => None,
    }
}

/// The path that unstaging the selection hands to git: that of the selected
/// entry, where it is a staged entry of the working-tree list.
pub open spec fn unstage_request_of(app: App) -> Option<String> {
    match app.current_file() {
        Some(f) if !app.in_review() && f.section == Section::Staged => Some(f.path),
        _ => None,
    }
}

/// The effect of `App::stage_selected`.
pub open spec fn stage_selected_post(pre: App, post: App, r: Result<(), Failure>) -> bool {
    &&& match pre.current_file() {
        Some(f) if !pre.in_review() && f.section == Section::Unstaged => match r {
            Ok(()) => {
                &&& post.mode is Status
                &&& listing_for(post.mode, post.files@)
                &&& advancing_state(
                    pre,
                    post,
                    post.files@,
                    Section::Unstaged,
                    within_of(pre.files@, pre.selected) as usize,
                )
            },
            Err(e) => e is Git && post == pre,
        },
        _ => r is Ok && post == pre,
    }
}

/// The effect of `App::unstage_selected`.
pub open spec fn unstage_selected_post(pre: App, post: App, r: Result<(), Failure>) -> bool {
    &&& match pre.current_file() {
        Some(f) if !pre.in_review() && f.section == Section::Staged => match r {
            Ok(()) => {
                &&& post.mode is Status
                &&& listing_for(post.mode, post.files@)
                &&& advancing_state(
                    pre,
                    post,
                    post.files@,
                    Section::Staged,
                    within_of(pre.files@, pre.selected) as usize,
                )
            },
            Err(e) => e is Git && post == pre,
        },
        _ => r is Ok && post == pre,
    }
}

/// The effect of `App::confirm_yes`.
pub open spec fn confirm_yes_post(pre: App, post: App, r: Result<Option<Removal>, Failure>) -> bool {
    &&& match pre.pending {
        None => r matches Ok(None) && post == pre,
        Some(Confirm::Discard { path, change }) => {
            let cleared = App { pending: None, ..pre };
            if change == Change::Untracked {
                match r {
                    Ok(Some(rm)) => rm.path@ == path@ && post == cleared,
                    Ok(None) => false,
                    Err(e) => e is BareRepository && post == cleared,
                }
            } else if !nul_free(path@) {
                r matches Err(Failure::NulInPath(p)) && p == path && post == cleared
            } else {
                match r {
                    Ok(Some(_)) => false,
                    Ok(None) => {
                        &&& mode_reloaded(cleared.mode, post.mode)
                        &&& listing_for(post.mode, post.files@)
                        &&& message_is(post.status_msg, "discarded"@)
                        &&& reload_state(
                            App { mode: post.mode, ..cleared },
                            App { status_msg: cleared.status_msg, ..post },
                            post.files@,
                        )
                    },
                    Err(e) => (e is Git || reload_failure(cleared.mode, e)) && post == cleared,
                }
            }
        },
    }
}

/// The effect of `App::scroll_diff_bottom`: the selected entry's diff is made
/// sure of (as `ensure_diff_post` says) and scrolled so that its last line is
/// at the top.
pub open spec fn scroll_diff_bottom_post(pre: App, post: App) -> bool {
    &&& ensure_diff_post(pre, App { diff_scroll: pre.diff_scroll, ..post })
    &&& pre.diff_cache@.is_prefix_of(post.diff_cache@)
    &&& ({
        let lines: int = match current_cached(post) {
            Some(t) => line_count_of(t.spec_text()) as int,
            None => 0,
        };
        let target: int = if lines > 0 {
            lines - 1
        } else {
            0
        };
        post.diff_scroll == if target > u16::MAX {
            u16::MAX as int
        } else {
            target
        }
    })
    &&& post == (App {
        diff_cache: post.diff_cache,
        diff_scroll: post.diff_scroll,
        ..pre
    })
}

impl App {
    /// The state is well formed: an active search has matches and its cursor
    /// is on one, and no path and section has two cached diffs.
    pub open spec fn wf(self) -> bool {
        &&& self.search matches Search::Active { cursor, order, .. } ==> order@.len() > 0
            && cursor < order@.len()
        &&& cache_distinct(self.diff_cache@)
    }

    pub open spec fn in_review(self) -> bool {
        self.mode is Review
    }

    /// The selected entry, if the selection is on one.
    pub open spec fn current_file(self) -> Option<FileEntry> {
        if self.selected < self.files@.len() {
            Some(self.files@[self.selected as int])
        } else {
            None
        }
    }

    /// Starts typing a search query.
    pub fn search_start(&mut self)
        ensures
            search_start_post(*old(self), *final(self)),
    {
        self.search = Search::Input(String::new());
    }

    /// Adds a character to the query being typed.
    pub fn search_input_push(&mut self, c: char)
        ensures
            search_input_push_post(*old(self), *final(self), c),
    {
        let mut s = Search::Off;
        std::mem::swap(&mut s, &mut self.search);
        match s {
            Search::Input(mut q) => {
                q.push(c);
                self.search = Search::Input(q);
            },
            other => {
                self.search = other;
            },
        }
    }

    /// Removes the last character of the query; on an empty query, leaves the search.
    pub fn search_input_pop(&mut self)
        ensures
            search_input_pop_post(*old(self), *final(self)),
    {
        let mut s = Search::Off;
        std::mem::swap(&mut s, &mut self.search);
        match s {
            Search::Input(mut q) => {
                if q.pop().is_some() {
                    self.search = Search::Input(q);
                }
            },
            other => {
                self.search = other;
            },
        }
    }

    /// Leaves the search.
    pub fn search_cancel(&mut self)
        ensures
            search_cancel_post(*old(self), *final(self)),
    {
        self.search = Search::Off;
    }

    /// Runs the typed query: selects the first match at or after the selection
    /// (wrapping to the first match), or reports that nothing matched.
    pub fn search_submit(&mut self)
        requires
            old(self).wf(),
        ensures
            final(self).wf(),
            search_submit_post(*old(self), *final(self)),
    {
        let mut s = Search::Off;
        std::mem::swap(&mut s, &mut self.search);
        let query = match s {
            Search::Input(q) => {
                if q.as_str().is_empty() {
                    return ;
                }
                q
            },
            _ => {
                return ;
            },
        };
        let order = find_file_matches(&self.files, query.as_str());
        if order.len() == 0 {
            let mut m = String::from_str("no matches for ");
            m.append(quoted(query.as_str()).as_str());
            self.status_msg = Some(m);
            return ;
        }
        let matches = self.paths_of(&order);
        let next = next_match_from(&order, self.selected);
        proof {
            crate::search::lemma_index_at_least_in_range(order@, self.selected, 0);
        }
        self.selected = order[next];
        self.diff_scroll = 0;
        self.search = Search::Active { query, matches, cursor: next, order };
    }

    /// The paths of the entries at the given indices, each once.
    fn paths_of(&self, order: &Vec<usize>) -> (r: Vec<String>)
        requires
            increasing_below(order@, self.files@.len() as int),
        ensures
            lists_paths(r@, self.files@, order@),
    {
        let mut r: Vec<String> = Vec::new();
        for k in 0..order.len()
            invariant
                increasing_below(order@, self.files@.len() as int),
                lists_paths(r@, self.files@, order@.take(k as int)),
        {
            let ghost before = r@;
            let ghost taken = order@.take(k as int);
            let ghost next = order@.take(k + 1);
            let path = &self.files[order[k]].path;
            assert forall|j: int| 0 <= j < taken.len() implies next[j] == taken[j] by {}
            assert(next[k as int] == order@[k as int]);
            if !contains_path(&r, path.as_str()) {
                r.push(path.clone());
                proof {
                    lemma_views_push(before, r@.last());
                    assert(before.push(r@.last()) =~= r@);
                    assert(views(r@) =~= views(before).push(path@));
                }
            }
            assert forall|p: Seq<char>| #[trigger] views(r@).contains(p) <==> path_among(self.files@, next, p) by {
                if path_among(self.files@, next, p) {
                    let j = choose|j: int| 0 <= j < next.len() && #[trigger] self.files@[next[j] as int].path@ == p;
                    if j < k {
                        assert(self.files@[taken[j] as int].path@ == p);
                    }
                }
                if path_among(self.files@, taken, p) {
                    let j = choose|j: int| 0 <= j < taken.len() && #[trigger] self.files@[taken[j] as int].path@ == p;
                    assert(self.files@[next[j] as int].path@ == p);
                }
                if p == path@ {
                    assert(self.files@[next[k as int] as int].path@ == p);
                }
            }
        }
        assert(order@.take(order.len() as int) =~= order@);
        r
    }

    /// Moves to the next match, wrapping around.
    pub fn search_next(&mut self)
        requires
            old(self).wf(),
        ensures
            final(self).wf(),
            search_next_post(*old(self), *final(self)),
    {
        let mut s = Search::Off;
        std::mem::swap(&mut s, &mut self.search);
        match s {
            Search::Active { query, matches, cursor, order } => {
                if order.len() == 0 {
                    self.search = Search::Active { query, matches, cursor, order };
                    return ;
                }
                let c = (cursor + 1) % order.len();
                self.selected = order[c];
                self.diff_scroll = 0;
                self.search = Search::Active { query, matches, cursor: c, order };
            },
            other => {
                self.search = other;
            },
        }
    }

    /// Moves to the previous match, wrapping around.
    pub fn search_prev(&mut self)
        requires
            old(self).wf(),
        ensures
            final(self).wf(),
            search_prev_post(*old(self), *final(self)),
    {
        let mut s = Search::Off;
        std::mem::swap(&mut s, &mut self.search);
        match s {
            Search::Active { query, matches, cursor, order } => {
                if order.len() == 0 {
                    self.search = Search::Active { query, matches, cursor, order };
                    return ;
                }
                let c = if cursor == 0 {
                    order.len() - 1
                } else {
                    cursor - 1
                };
                self.selected = order[c];
                self.diff_scroll = 0;
                self.search = Search::Active { query, matches, cursor: c, order };
            },
            other => {
                self.search = other;
            },
        }
    }

    /// Whether `path` is one of the matches of the active search.
    pub fn is_match(&self, path: &str) -> (r: bool)
        ensures
            r == search_matches(self.search, path@),
    {
        match &self.search {
            Search::Active { matches, .. } => {
                let p = String::from_str(path);
                for k in 0..matches.len()
                    invariant
                        p@ == path@,
                        search_matches(self.search, path@) == views(matches@).contains(path@),
                        forall|j: int| 0 <= j < k ==> matches@[j]@ != path@,
                {
                    if matches[k] == p {
                        assert(views(matches@)[k as int] == path@);
                        assert(views(matches@).contains(path@));
                        return true;
                    }
                }
                false
            },
            _ => false,
        }
    }
}

/// The number of entries in section `s`.
pub open spec fn count_section(files: Seq<FileEntry>, s: Section) -> nat
    decreases files.len(),
{
    if files.len() == 0 {
        0
    } else {
        count_section(files.drop_last(), s) + if files.last().section == s {
            1nat
        } else {
            0nat
        }
    }
}

/// The paths marked as reviewed (none outside review mode).
pub open spec fn reviewed_paths(m: Mode) -> Set<Seq<char>> {
    match m {
        Mode::Review { reviewed, .. } => views(reviewed@).to_set(),
        Mode::Status => Set::empty(),
    }
}

/// `p` flipped in the set `s`: removed if it is there, added if not.
pub open spec fn toggled(s: Set<Seq<char>>, p: Seq<char>) -> Set<Seq<char>> {
    if s.contains(p) {
        s.remove(p)
    } else {
        s.insert(p)
    }
}

/// The number of entries whose path is in `marked`.
pub open spec fn count_marked(files: Seq<FileEntry>, marked: Set<Seq<char>>) -> nat
    decreases files.len(),
{
    if files.len() == 0 {
        0
    } else {
        count_marked(files.drop_last(), marked) + if marked.contains(files.last().path@) {
            1nat
        } else {
            0nat
        }
    }
}

/// The mode is the same but for the reviewed marks.
pub open spec fn same_but_marks(a: Mode, b: Mode) -> bool {
    match a {
        Mode::Status => b is Status,
        Mode::Review { spec, left, right, .. } => b matches Mode::Review {
            spec: s2,
            left: l2,
            right: r2,
            ..
        } && s2 == spec && l2 == left && r2 == right,
    }
}

impl App {
    /// Gives the focus to the file list.
    pub fn focus_status(&mut self)
        ensures
            focus_status_post(*old(self), *final(self)),
    {
        self.focus = Pane::Status;
    }

    /// Gives the focus to the diff.
    pub fn focus_diff(&mut self)
        ensures
            focus_diff_post(*old(self), *final(self)),
    {
        self.focus = Pane::Diff;
    }

    /// Shows or hides the help.
    pub fn toggle_help(&mut self)
        ensures
            toggle_help_post(*old(self), *final(self)),
    {
        self.show_help = !self.show_help;
    }

    /// Asks the main loop to stop.
    pub fn request_quit(&mut self)
        ensures
            request_quit_post(*old(self), *final(self)),
    {
        self.should_quit = true;
    }

    /// Whether the viewer shows a review rather than the working tree.
    pub fn is_review(&self) -> (r: bool)
        ensures
            r == self.in_review(),
    {
        match self.mode {
            Mode::Review { .. } => true,
            Mode::Status => false,
        }
    }

    /// The selected entry, if the selection is on one.
    pub fn current(&self) -> (r: Option<&FileEntry>)
        ensures
            match r {
                Some(f) => self.current_file() == Some(*f),
                None => self.current_file() is None,
            },
    {
        if self.selected < self.files.len() {
            Some(&self.files[self.selected])
        } else {
            None
        }
    }

    /// Moves the selection down one entry, if there is one below.
    pub fn move_down(&mut self)
        ensures
            move_down_post(*old(self), *final(self)),
    {
        if self.selected < self.files.len() && self.selected + 1 < self.files.len() {
            self.selected = self.selected + 1;
            self.diff_scroll = 0;
        }
    }

    /// Moves the selection up one entry, if it is not at the top.
    pub fn move_up(&mut self)
        ensures
            move_up_post(*old(self), *final(self)),
    {
        if self.selected > 0 {
            self.selected = self.selected - 1;
            self.diff_scroll = 0;
        }
    }

    /// Scrolls the diff down by `n` lines (stopping at the largest offset).
    pub fn scroll_diff_down(&mut self, n: u16)
        ensures
            scroll_diff_down_post(*old(self), *final(self), n),
    {
        self.diff_scroll = self.diff_scroll.saturating_add(n);
    }

    /// Scrolls the diff up by `n` lines (stopping at the top).
    pub fn scroll_diff_up(&mut self, n: u16)
        ensures
            scroll_diff_up_post(*old(self), *final(self), n),
    {
        self.diff_scroll = self.diff_scroll.saturating_sub(n);
    }

    /// Scrolls the diff to its top.
    pub fn scroll_diff_top(&mut self)
        ensures
            scroll_diff_top_post(*old(self), *final(self)),
    {
        self.diff_scroll = 0;
    }

    /// Asks to open the selected file in the editor; a deleted file cannot be
    /// edited. Review mode is read-only: there it does nothing.
    pub fn request_edit(&mut self)
        ensures
            request_edit_post(*old(self), *final(self)),
    {
        if self.is_review() || self.selected >= self.files.len() {
            return ;
        }
        if self.files[self.selected].change == Change::Deleted {
            self.status_msg = Some(String::from_str("file is deleted, nothing to edit"));
            return ;
        }
        self.edit_request = Some(self.files[self.selected].path.clone());
    }

    /// Asks to confirm discarding the selected unstaged change; any other
    /// entry, every entry of a review among them, is answered that discarding
    /// only applies to unstaged changes.
    pub fn request_discard(&mut self)
        ensures
            request_discard_post(*old(self), *final(self)),
    {
        if self.selected >= self.files.len() {
            return ;
        }
        if self.is_review() || self.files[self.selected].section != Section::Unstaged {
            self.status_msg = Some(String::from_str("discard only applies to unstaged changes"));
            return ;
        }
        let path = self.files[self.selected].path.clone();
        let change = self.files[self.selected].change;
        let mut m = String::from_str("discard ");
        m.append(path.as_str());
        m.append("? (y/n)");
        self.pending = Some(Confirm::Discard { path, change });
        self.status_msg = Some(m);
    }

    /// Drops the pending confirmation, saying so if there was one.
    pub fn confirm_no(&mut self)
        ensures
            confirm_no_post(*old(self), *final(self)),
    {
        if self.pending.is_some() {
            self.pending = None;
            self.status_msg = Some(String::from_str("cancelled"));
        }
    }

    /// How many entries are staged.
    pub fn staged_count(&self) -> (n: usize)
        ensures
            n == count_section(self.files@, Section::Staged),
    {
        self.count_in(Section::Staged)
    }

    /// How many entries are unstaged.
    pub fn unstaged_count(&self) -> (n: usize)
        ensures
            n == count_section(self.files@, Section::Unstaged),
    {
        self.count_in(Section::Unstaged)
    }

    fn count_in(&self, s: Section) -> (n: usize)
        ensures
            n == count_section(self.files@, s),
    {
        let mut n: usize = 0;
        for i in 0..self.files.len()
            invariant
                n == count_section(self.files@.take(i as int), s),
                n <= i,
        {
            assert(self.files@.take(i + 1).drop_last() =~= self.files@.take(i as int));
            if self.files[i].section == s {
                n = n + 1;
            }
        }
        assert(self.files@.take(self.files.len() as int) =~= self.files@);
        n
    }

    /// Whether `path` is marked as reviewed (never outside review mode).
    pub fn is_reviewed(&self, path: &str) -> (r: bool)
        ensures
            r == reviewed_paths(self.mode).contains(path@),
    {
        match &self.mode {
            Mode::Review { reviewed, .. } => contains_path(reviewed, path),
            Mode::Status => false,
        }
    }

    /// How many listed entries are marked as reviewed.
    pub fn reviewed_count(&self) -> (n: usize)
        ensures
            n == count_marked(self.files@, reviewed_paths(self.mode)),
    {
        let mut n: usize = 0;
        for i in 0..self.files.len()
            invariant
                n == count_marked(self.files@.take(i as int), reviewed_paths(self.mode)),
                n <= i,
        {
            assert(self.files@.take(i + 1).drop_last() =~= self.files@.take(i as int));
            if self.is_reviewed(self.files[i].path.as_str()) {
                n = n + 1;
            }
        }
        assert(self.files@.take(self.files.len() as int) =~= self.files@);
        n
    }

    /// In review mode, flips the reviewed mark of the selected entry
    /// (marks live in memory only). Elsewhere it does nothing.
    pub fn toggle_reviewed(&mut self)
        ensures
            toggle_reviewed_post(*old(self), *final(self)),
    {
        if self.selected >= self.files.len() {
            return ;
        }
        let path = self.files[self.selected].path.clone();
        let mut m = Mode::Status;
        std::mem::swap(&mut m, &mut self.mode);
        match m {
            Mode::Review { spec, left, right, reviewed } => {
                let ghost before = views(reviewed@).to_set();
                let next = if contains_path(&reviewed, path.as_str()) {
                    without_path(&reviewed, &path)
                } else {
                    let ghost prev = reviewed@;
                    let mut r = reviewed;
                    r.push(path);
                    proof {
                        lemma_views_push(prev, r@.last());
                        assert(prev.push(r@.last()) =~= r@);
                    }
                    r
                };
                assert(views(next@).to_set() =~= toggled(before, self.files@[self.selected as int].path@));
                self.mode = Mode::Review { spec, left, right, reviewed: next };
            },
            other => {
                self.mode = other;
            },
        }
    }
}

/// Whether one of `list` is `path`.
pub fn contains_path(list: &Vec<String>, path: &str) -> (r: bool)
    ensures
        r == views(list@).contains(path@),
{
    let p = String::from_str(path);
    for k in 0..list.len()
        invariant
            p@ == path@,
            forall|j: int| 0 <= j < k ==> list@[j]@ != path@,
    {
        if list[k] == p {
            assert(views(list@)[k as int] == path@);
            return true;
        }
    }
    false
}

/// Extending a list of strings adds exactly the new string's text.
pub proof fn lemma_views_push(s: Seq<String>, x: String)
    ensures
        forall|v: Seq<char>| #[trigger] views(s.push(x)).contains(v) <==> (views(s).contains(v) || v == x@),
{
    assert(views(s.push(x)) =~= views(s).push(x@));
    assert forall|v: Seq<char>| #[trigger] views(s.push(x)).contains(v) <==> (views(s).contains(v) || v == x@) by {
        if views(s).contains(v) {
            let j = choose|j: int| 0 <= j < views(s).len() && #[trigger] views(s)[j] == v;
            assert(views(s.push(x))[j] == v);
        }
        if v == x@ {
            assert(views(s.push(x))[s.len() as int] == v);
        }
        if views(s.push(x)).contains(v) {
            let j = choose|j: int| 0 <= j < views(s.push(x)).len() && #[trigger] views(s.push(x))[j] == v;
            if j < s.len() {
                assert(views(s)[j] == v);
            }
        }
    }
}

/// The list without any string equal to `path`.
pub fn without_path(list: &Vec<String>, path: &String) -> (r: Vec<String>)
    ensures
        forall|v: Seq<char>| #[trigger] views(r@).contains(v) <==> (views(list@).contains(v) && v != path@),
{
    let mut r: Vec<String> = Vec::new();
    for k in 0..list.len()
        invariant
            forall|v: Seq<char>| #[trigger] views(r@).contains(v) <==> (views(list@.take(k as int)).contains(v) && v != path@),
    {
        proof {
            assert(list@.take(k + 1) =~= list@.take(k as int).push(list@[k as int]));
            lemma_views_push(list@.take(k as int), list@[k as int]);
        }
        if !(list[k] == *path) {
            let ghost before = r@;
            let c = list[k].clone();
            r.push(c);
            proof {
                lemma_views_push(before, c);
            }
        }
    }
    assert(list@.take(list.len() as int) =~= list@);
    r
}

/// `files` is a list that loading can give in mode `m`.
pub open spec fn listing_for(m: Mode, files: Seq<FileEntry>) -> bool {
    match m {
        Mode::Status => exists|recs: Seq<StatusRecord>|
            #![trigger status_entries(recs)]
            status_listing(recs, files),
        Mode::Review { .. } => exists|ds: Seq<DeltaRecord>|
            #![trigger review_entries(ds)]
            review_listing(ds, files),
    }
}

/// The failures loading can report in mode `m`.
pub open spec fn reload_failure(m: Mode, e: Failure) -> bool {
    match m {
        Mode::Status => e is Git,
        Mode::Review { spec, .. } => spec_failure(e, spec@),
    }
}

/// A reload keeps the mode; a review keeps its revspec and marks and may
/// move to new trees.
pub open spec fn mode_reloaded(a: Mode, b: Mode) -> bool {
    match a {
        Mode::Status => b is Status,
        Mode::Review { spec, reviewed, .. } => b matches Mode::Review {
            spec: s2,
            reviewed: r2,
            ..
        } && s2 == spec && r2 == reviewed,
    }
}

/// A selection kept within a list of `len` entries.
pub open spec fn clamped(sel: usize, len: int) -> usize {
    if sel >= len {
        if len > 0 {
            (len - 1) as usize
        } else {
            0
        }
    } else {
        sel
    }
}

/// The search after the list changed to `files`: an active search is run
/// again, keeping the cursor on the selection where it is a match.
pub open spec fn search_after_reload(
    old_s: Search,
    files: Seq<FileEntry>,
    selected: usize,
    new_s: Search,
) -> bool {
    match old_s {
        Search::Active { query, .. } => {
            let order = match_order(files, query@);
            if order.len() == 0 {
                new_s is Off
            } else {
                new_s matches Search::Active { query: q2, matches, cursor, order: o2 } && q2
                    == query && o2@ == order && lists_paths(matches@, files, order) && cursor
                    == position_or_first(order, selected)
            }
        },
        _ => new_s == old_s,
    }
}

/// `post` is `pre` with the list replaced by `files`: selection kept in
/// range, cached diffs dropped, diff scrolled to the top, search run again.
pub open spec fn reload_state(pre: App, post: App, files: Seq<FileEntry>) -> bool {
    &&& post.files@ == files
    &&& post.selected == clamped(pre.selected, files.len() as int)
    &&& post.diff_cache@.len() == 0
    &&& search_after_reload(pre.search, files, post.selected, post.search)
    &&& post == (App {
        files: post.files,
        selected: post.selected,
        diff_cache: post.diff_cache,
        diff_scroll: 0,
        search: post.search,
        ..pre
    })
}

/// The first index from `from` on of an entry with this path and section.
pub open spec fn index_with(files: Seq<FileEntry>, path: Seq<char>, section: Section, from: int) -> Option<int>
    decreases files.len() - from,
{
    if from < 0 || from >= files.len() {
        None
    } else if files[from].path@ == path && files[from].section == section {
        Some(from)
    } else {
        index_with(files, path, section, from + 1)
    }
}

/// The first index from `from` on of an entry with this path.
pub open spec fn index_with_path(files: Seq<FileEntry>, path: Seq<char>, from: int) -> Option<int>
    decreases files.len() - from,
{
    if from < 0 || from >= files.len() {
        None
    } else if files[from].path@ == path {
        Some(from)
    } else {
        index_with_path(files, path, from + 1)
    }
}

/// Where the entry `f` is found again in `files`: same path and section, or
/// else the same path.
pub open spec fn relocated(files: Seq<FileEntry>, f: FileEntry) -> Option<int> {
    match index_with(files, f.path@, f.section, 0) {
        Some(i) => Some(i),
        None => index_with_path(files, f.path@, 0),
    }
}

/// `post` is `pre` with the list replaced by `files`, the selection following
/// the selected file where it is still listed (keeping the diff's scroll).
pub open spec fn keep_state(pre: App, post: App, files: Seq<FileEntry>) -> bool {
    let found = match pre.current_file() {
        Some(f) => relocated(files, f),
        None => None,
    };
    &&& post.files@ == files
    &&& post.diff_cache@.len() == 0
    &&& match found {
        Some(i) => post.selected == i && post.diff_scroll == pre.diff_scroll,
        None => post.selected == clamped(pre.selected, files.len() as int) && post.diff_scroll
            == 0,
    }
    &&& post == (App {
        files: post.files,
        selected: post.selected,
        diff_cache: post.diff_cache,
        diff_scroll: post.diff_scroll,
        ..pre
    })
}

/// The indices of the entries in section `s`, in order.
pub open spec fn section_indices(files: Seq<FileEntry>, s: Section) -> Seq<usize>
    decreases files.len(),
{
    if files.len() == 0 {
        seq![]
    } else {
        section_indices(files.drop_last(), s) + if files.last().section == s {
            seq![(files.len() - 1) as usize]
        } else {
            seq![]
        }
    }
}

/// The first index from `k` on of an entry outside section `s`.
pub open spec fn first_outside(files: Seq<FileEntry>, s: Section, k: int) -> Option<int>
    decreases files.len() - k,
{
    if k < 0 || k >= files.len() {
        None
    } else if files[k].section != s {
        Some(k)
    } else {
        first_outside(files, s, k + 1)
    }
}

/// Where the selection goes after an entry left section `from`: the entry
/// of that section now at the same place in it (or its last one), or, when
/// the section is empty, the first entry of another section.
pub open spec fn advance_target(files: Seq<FileEntry>, from: Section, within: usize) -> int {
    let ins = section_indices(files, from);
    if ins.len() > 0 {
        ins[if within < ins.len() {
            within as int
        } else {
            ins.len() - 1
        }] as int
    } else {
        match first_outside(files, from, 0) {
            Some(i) => i,
            None => 0,
        }
    }
}

/// `post` is `pre` with the list replaced by `files` and the selection moved
/// as `advance_target` says (kept within the list).
pub open spec fn advancing_state(
    pre: App,
    post: App,
    files: Seq<FileEntry>,
    from: Section,
    within: usize,
) -> bool {
    let t = advance_target(files, from, within);
    let last = if files.len() > 0 {
        files.len() - 1
    } else {
        0
    };
    &&& post.files@ == files
    &&& post.diff_cache@.len() == 0
    &&& post.selected == if t < last {
        t
    } else {
        last
    }
    &&& post == (App {
        files: post.files,
        selected: post.selected,
        diff_cache: post.diff_cache,
        diff_scroll: 0,
        ..pre
    })
}

/// How many entries before the selection share its section.
pub open spec fn within_of(files: Seq<FileEntry>, sel: usize) -> nat {
    if sel < files.len() {
        count_section(files.take(sel as int), files[sel as int].section)
    } else {
        0
    }
}

/// The first cached diff for this path and section.
pub open spec fn cache_index(cache: Seq<CachedDiff>, path: Seq<char>, section: Section, from: int) -> Option<int>
    decreases cache.len() - from,
{
    if from < 0 || from >= cache.len() {
        None
    } else if cache[from].path@ == path && cache[from].section == section {
        Some(from)
    } else {
        cache_index(cache, path, section, from + 1)
    }
}

/// Two cached diffs are for the same path and section.
pub open spec fn same_key(a: CachedDiff, b: CachedDiff) -> bool {
    a.path@ == b.path@ && a.section == b.section
}

/// No path and section has two cached diffs.
pub open spec fn cache_distinct(cache: Seq<CachedDiff>) -> bool {
    forall|i: int, j: int| 0 <= i < j < cache.len() ==> !same_key(#[trigger] cache[i], #[trigger] cache[j])
}

/// A key with no cached diff from `from` on matches none of those entries.
pub proof fn lemma_cache_index_none(cache: Seq<CachedDiff>, path: Seq<char>, section: Section, from: int)
    requires
        0 <= from,
        cache_index(cache, path, section, from) is None,
    ensures
        forall|k: int| from <= k < cache.len() ==> !(#[trigger] cache[k].path@ == path && cache[k].section == section),
    decreases cache.len() - from,
{
    if from < cache.len() {
        lemma_cache_index_none(cache, path, section, from + 1);
    }
}

/// Whether no path and section has two cached diffs.
pub fn cache_keys_distinct(cache: &Vec<CachedDiff>) -> (r: bool)
    ensures
        r == cache_distinct(cache@),
{
    let n = cache.len();
    for i in 0..n
        invariant
            n == cache@.len(),
            forall|a: int, b: int| 0 <= a < i && a < b < n ==> !same_key(#[trigger] cache@[a], #[trigger] cache@[b]),
    {
        for j in i + 1..n
            invariant
                n == cache@.len(),
                i < n,
                forall|a: int, b: int| 0 <= a < i && a < b < n ==> !same_key(#[trigger] cache@[a], #[trigger] cache@[b]),
                forall|b: int| i < b < j ==> !same_key(cache@[i as int], #[trigger] cache@[b]),
        {
            if cache[i].path == cache[j].path && cache[i].section == cache[j].section {
                assert(same_key(cache@[i as int], cache@[j as int]));
                return false;
            }
        }
    }
    true
}

/// The cached diff of the selected entry, if there is one.
pub open spec fn current_cached(app: App) -> Option<DiffText> {
    match app.current_file() {
        Some(f) => match cache_index(app.diff_cache@, f.path@, f.section, 0) {
            Some(k) => Some(app.diff_cache@[k].text),
            None => None,
        },
        None => None,
    }
}

/// The text shown for a diff that could not be computed.
pub open spec fn failed_diff_text(e: Failure) -> Seq<char> {
    "error computing diff: "@ + e.spec_message()
}

/// `c` is the diff computed for entry `f` in mode `m`: the plain patch, or
/// the message of a failure computing it.
pub open spec fn computed_entry(m: Mode, f: FileEntry, c: CachedDiff) -> bool {
    &&& c.path == f.path
    &&& c.section == f.section
    &&& c.text matches DiffText::Plain(s) && ((exists|ls: Seq<PatchLine>| #[trigger] patch_text(ls)
        == s@) || (exists|e: Failure| #[trigger] patch_failure(m, f, e) && s@ == failed_diff_text(e)))
}

/// The failures computing a patch can report.
pub open spec fn patch_failure(m: Mode, f: FileEntry, e: Failure) -> bool {
    match m {
        Mode::Status => if f.section == Section::Review {
            e is ReviewSectionDiff
        } else if !nul_free(f.path@) {
            e matches Failure::NulInPath(p) && p == f.path
        } else {
            e is Git
        },
        Mode::Review { .. } => if !nul_free(f.path@) {
            e matches Failure::NulInPath(p) && p == f.path
        } else if (f.old_path matches Some(o) && !nul_free(o@)) {
            e matches Failure::NulInPath(p) && Some(p) == f.old_path
        } else {
            e is Git
        },
    }
}

impl App {
    /// A viewer of the working tree.
    pub fn new(repo: git2::Repository) -> (r: Result<App, Failure>)
        ensures
            match r {
                Ok(app) => {
                    &&& app.wf()
                    &&& app.repo == repo
                    &&& app.mode is Status
                    &&& listing_for(app.mode, app.files@)
                    &&& app.initial()
                },
                Err(e) => e is Git,
            },
    {
        let files = load_status(&repo)?;
        Ok(
            App {
                repo,
                mode: Mode::Status,
                files,
                selected: 0,
                should_quit: false,
                diff_cache: Vec::new(),
                diff_scroll: 0,
                status_msg: None,
                pending: None,
                show_help: false,
                edit_request: None,
                focus: Pane::Status,
                pending_g: false,
                search: Search::Off,
            },
        )
    }

    /// A viewer of the changes that the revspec `spec` names, none marked reviewed.
    pub fn new_review(repo: git2::Repository, spec: String) -> (r: Result<App, Failure>)
        ensures
            match r {
                Ok(app) => {
                    &&& app.wf()
                    &&& app.repo == repo
                    &&& app.mode matches Mode::Review { spec: s, reviewed, .. } && s == spec
                        && reviewed@.len() == 0
                    &&& listing_for(app.mode, app.files@)
                    &&& app.initial()
                },
                Err(e) => spec_failure(e, spec@),
            },
    {
        let (left, right, files) = load_review(&repo, spec.as_str())?;
        Ok(
            App {
                repo,
                mode: Mode::Review { spec, left, right, reviewed: Vec::new() },
                files,
                selected: 0,
                should_quit: false,
                diff_cache: Vec::new(),
                diff_scroll: 0,
                status_msg: None,
                pending: None,
                show_help: false,
                edit_request: None,
                focus: Pane::Status,
                pending_g: false,
                search: Search::Off,
            },
        )
    }

    /// The state a fresh viewer starts in (apart from its repository, mode and list).
    pub open spec fn initial(self) -> bool {
        &&& self.selected == 0
        &&& !self.should_quit
        &&& self.diff_cache@.len() == 0
        &&& self.diff_scroll == 0
        &&& self.status_msg is None
        &&& self.pending is None
        &&& !self.show_help
        &&& self.edit_request is None
        &&& self.focus == Pane::Status
        &&& !self.pending_g
        &&& self.search is Off
    }

    /// Whether the state is well formed.
    pub fn is_wf(&self) -> (r: bool)
        ensures
            r == self.wf(),
    {
        let search_ok = match &self.search {
            Search::Active { cursor, order, .. } => order.len() > 0 && *cursor < order.len(),
            _ => true,
        };
        search_ok && cache_keys_distinct(&self.diff_cache)
    }

    /// The short name of the checked-out branch, or `HEAD`.
    pub fn branch_name(&self) -> String {
        branch_name(&self.repo)
    }

    /// Loads the list for the current mode (with the review's trees).
    fn load_listing(&self) -> (r: Result<(Option<(git2::Oid, git2::Oid)>, Vec<FileEntry>), Failure>)
        ensures
            match r {
                Ok((ids, v)) => listing_for(self.mode, v@) && (ids is Some <==> self.in_review()),
                Err(e) => reload_failure(self.mode, e),
            },
    {
        match &self.mode {
            Mode::Status => {
                let files = load_status(&self.repo)?;
                Ok((None, files))
            },
            Mode::Review { spec, .. } => {
                let (l, r, files) = load_review(&self.repo, spec.as_str())?;
                Ok((Some((l, r)), files))
            },
        }
    }

    /// Points a review at new trees.
    fn set_trees(&mut self, ids: Option<(git2::Oid, git2::Oid)>)
        ensures
            mode_reloaded(old(self).mode, final(self).mode),
            *final(self) == (App { mode: final(self).mode, ..*old(self) }),
            match (ids, old(self).mode) {
                (Some((l, r)), Mode::Review { spec, reviewed, .. }) => final(self).mode == (Mode::Review {
                    spec,
                    left: l,
                    right: r,
                    reviewed,
                }),
                _ => *final(self) == *old(self),
            },
    {
        if let Some((l, r)) = ids {
            let mut m = Mode::Status;
            std::mem::swap(&mut m, &mut self.mode);
            match m {
                Mode::Review { spec, reviewed, .. } => {
                    self.mode = Mode::Review { spec, left: l, right: r, reviewed };
                },
                other => {
                    self.mode = other;
                },
            }
        }
    }

    /// Replaces the list with `files`: keeps the selection in range, drops the
    /// cached diffs, scrolls the diff to the top and runs an active search again.
    pub fn apply_listing(&mut self, files: Vec<FileEntry>)
        ensures
            final(self).wf(),
            reload_state(*old(self), *final(self), files@),
    {
        self.files = files;
        if self.selected >= self.files.len() {
            self.selected = if self.files.len() > 0 {
                self.files.len() - 1
            } else {
                0
            };
        }
        self.diff_cache = Vec::new();
        self.diff_scroll = 0;
        self.recompute_search();
    }

    fn recompute_search(&mut self)
        requires
            cache_distinct(old(self).diff_cache@),
        ensures
            final(self).wf(),
            search_after_reload(old(self).search, old(self).files@, old(self).selected, final(self).search),
            *final(self) == (App { search: final(self).search, ..*old(self) }),
    {
        let mut s = Search::Off;
        std::mem::swap(&mut s, &mut self.search);
        match s {
            Search::Active { query, .. } => {
                let order = find_file_matches(&self.files, query.as_str());
                if order.len() == 0 {
                    return ;
                }
                let matches = self.paths_of(&order);
                let cursor = position_of(&order, self.selected);
                proof {
                    lemma_index_of_in_range(order@, self.selected, 0);
                }
                self.search = Search::Active { query, matches, cursor, order };
            },
            other => {
                self.search = other;
            },
        }
    }

    /// Reloads the list (the working tree, or the review's revspec anew).
    /// On failure nothing changes.
    pub fn refresh(&mut self) -> (r: Result<(), Failure>)
        requires
            old(self).wf(),
        ensures
            final(self).wf(),
            refresh_post(*old(self), *final(self), r),
    {
        let (ids, files) = self.load_listing()?;
        self.set_trees(ids);
        self.apply_listing(files);
        Ok(())
    }

    /// Replaces the list with `files`, keeping the selection on the file that
    /// was selected where it is still listed.
    pub fn apply_listing_keep_selection(&mut self, files: Vec<FileEntry>)
        requires
            old(self).wf(),
        ensures
            final(self).wf(),
            keep_state(*old(self), *final(self), files@),
    {
        let prev = if self.selected < self.files.len() {
            Some(self.files[self.selected].clone())
        } else {
            None
        };
        self.files = files;
        self.diff_cache = Vec::new();
        if let Some(f) = prev {
            let found = match find_entry(&self.files, f.path.as_str(), Some(f.section)) {
                Some(i) => Some(i),
                None => find_entry(&self.files, f.path.as_str(), None),
            };
            if let Some(i) = found {
                self.selected = i;
                return ;
            }
        }
        if self.selected >= self.files.len() {
            self.selected = if self.files.len() > 0 {
                self.files.len() - 1
            } else {
                0
            };
        }
        self.diff_scroll = 0;
    }

    /// Reloads the list after the selected file was edited, keeping the
    /// selection on it where it is still listed. On failure nothing changes.
    pub fn refresh_keep_selection(&mut self) -> (r: Result<(), Failure>)
        requires
            old(self).wf(),
        ensures
            final(self).wf(),
            match r {
                Ok(()) => {
                    &&& mode_reloaded(old(self).mode, final(self).mode)
                    &&& listing_for(final(self).mode, final(self).files@)
                    &&& keep_state(
                        App { mode: final(self).mode, ..*old(self) },
                        *final(self),
                        final(self).files@,
                    )
                },
                Err(e) => reload_failure(old(self).mode, e) && *final(self) == *old(self),
            },
    {
        let (ids, files) = self.load_listing()?;
        self.set_trees(ids);
        self.apply_listing_keep_selection(files);
        Ok(())
    }

    /// Takes the pending request to edit a file, leaving none.
    pub fn take_edit_request(&mut self) -> (r: Option<String>)
        ensures
            r == old(self).edit_request,
            *final(self) == (App { edit_request: None, ..*old(self) }),
    {
        let mut r = None;
        std::mem::swap(&mut r, &mut self.edit_request);
        r
    }

    /// After the editor ran: on success the list is reloaded keeping the
    /// edited file selected; on failure the editor's error is shown.
    pub fn finish_edit(&mut self, outcome: Result<(), String>) -> (r: Result<(), Failure>)
        requires
            old(self).wf(),
        ensures
            final(self).wf(),
            match outcome {
                Err(msg) => r is Ok && message_is(final(self).status_msg, "editor failed: "@ + msg@)
                    && *final(self) == (App { status_msg: final(self).status_msg, ..*old(self) }),
                Ok(()) => match r {
                    Ok(()) => {
                        &&& mode_reloaded(old(self).mode, final(self).mode)
                        &&& listing_for(final(self).mode, final(self).files@)
                        &&& keep_state(
                            App { mode: final(self).mode, ..*old(self) },
                            *final(self),
                            final(self).files@,
                        )
                    },
                    Err(e) => reload_failure(old(self).mode, e) && *final(self) == *old(self),
                },
            },
    {
        match outcome {
            Err(msg) => {
                let mut m = String::from_str("editor failed: ");
                m.append(msg.as_str());
                self.status_msg = Some(m);
                Ok(())
            },
            Ok(()) => self.refresh_keep_selection(),
        }
    }

    /// How many entries before the selected one share its section.
    pub fn index_within_section(&self) -> (n: usize)
        ensures
            n == within_of(self.files@, self.selected),
    {
        if self.selected >= self.files.len() {
            return 0;
        }
        let s = self.files[self.selected].section;
        let mut n: usize = 0;
        for i in 0..self.selected
            invariant
                self.selected < self.files@.len(),
                s == self.files@[self.selected as int].section,
                n == count_section(self.files@.take(i as int), s),
                n <= i,
        {
            assert(self.files@.take(i + 1).drop_last() =~= self.files@.take(i as int));
            if self.files[i].section == s {
                n = n + 1;
            }
        }
        n
    }

    /// Replaces the list with `files` after an entry left section `from`,
    /// moving the selection to what took its place.
    pub fn apply_listing_advancing(&mut self, files: Vec<FileEntry>, from: Section, within: usize)
        requires
            old(self).wf(),
        ensures
            final(self).wf(),
            advancing_state(*old(self), *final(self), files@, from, within),
    {
        self.files = files;
        self.diff_cache = Vec::new();
        self.diff_scroll = 0;
        let ins = indices_in(&self.files, from);
        let target = if ins.len() > 0 {
            let k = if within < ins.len() {
                within
            } else {
                ins.len() - 1
            };
            ins[k]
        } else {
            match first_outside_of(&self.files, from) {
                Some(i) => i,
                None => 0,
            }
        };
        let last = if self.files.len() > 0 {
            self.files.len() - 1
        } else {
            0
        };
        self.selected = if target < last {
            target
        } else {
            last
        };
    }

    fn refresh_advancing(&mut self, from: Section, within: usize) -> (r: Result<(), Failure>)
        requires
            old(self).wf(),
        ensures
            final(self).wf(),
            match r {
                Ok(()) => {
                    &&& mode_reloaded(old(self).mode, final(self).mode)
                    &&& listing_for(final(self).mode, final(self).files@)
                    &&& advancing_state(
                        App { mode: final(self).mode, ..*old(self) },
                        *final(self),
                        final(self).files@,
                        from,
                        within,
                    )
                },
                Err(e) => reload_failure(old(self).mode, e) && *final(self) == *old(self),
            },
    {
        let (ids, files) = self.load_listing()?;
        self.set_trees(ids);
        self.apply_listing_advancing(files, from, within);
        Ok(())
    }

    /// What staging hands to git: the selected entry's path and change, where
    /// it is an unstaged entry of the working-tree list.
    pub fn stage_request(&self) -> (r: Option<(String, Change)>)
        ensures
            r == stage_request_of(*self),
    {
        if self.is_review() || self.selected >= self.files.len() {
            return None;
        }
        let f = &self.files[self.selected];
        if f.section != Section::Unstaged {
            return None;
        }
        Some((f.path.clone(), f.change))
    }

    /// What unstaging hands to git: the selected entry's path, where it is a
    /// staged entry of the working-tree list.
    pub fn unstage_request(&self) -> (r: Option<String>)
        ensures
            r == unstage_request_of(*self),
    {
        if self.is_review() || self.selected >= self.files.len() {
            return None;
        }
        let f = &self.files[self.selected];
        if f.section != Section::Staged {
            return None;
        }
        Some(f.path.clone())
    }

    /// Stages the selected unstaged entry (as `stage_request` names it) and
    /// selects what takes its place in the unstaged list. Review mode is
    /// read-only: there it does nothing.
    pub fn stage_selected(&mut self) -> (r: Result<(), Failure>)
        requires
            old(self).wf(),
        ensures
            final(self).wf(),
            stage_selected_post(*old(self), *final(self), r),
    {
        match self.stage_request() {
            None => Ok(()),
            Some((path, change)) => {
                let within = self.index_within_section();
                stage(&self.repo, path.as_str(), change)?;
                self.refresh_advancing(Section::Unstaged, within)
            },
        }
    }

    /// Unstages the selected staged entry (as `unstage_request` names it)
    /// and selects what takes its place in the staged list. Review mode is
    /// read-only: there it does nothing.
    pub fn unstage_selected(&mut self) -> (r: Result<(), Failure>)
        requires
            old(self).wf(),
        ensures
            final(self).wf(),
            unstage_selected_post(*old(self), *final(self), r),
    {
        match self.unstage_request() {
            None => Ok(()),
            Some(path) => {
                let within = self.index_within_section();
                unstage(&self.repo, path.as_str())?;
                self.refresh_advancing(Section::Staged, within)
            },
        }
    }

    /// Answers `y` to the pending confirmation: discards the change. A tracked
    /// file is restored and the list reloaded here; for an untracked one the
    /// file to delete is handed back, and `finish_discard` completes it.
    pub fn confirm_yes(&mut self) -> (r: Result<Option<Removal>, Failure>)
        requires
            old(self).wf(),
        ensures
            final(self).wf(),
            confirm_yes_post(*old(self), *final(self), r),
    {
        let mut pending = None;
        std::mem::swap(&mut pending, &mut self.pending);
        match pending {
            None => Ok(None),
            Some(Confirm::Discard { path, change }) => {
                if change != Change::Untracked && !no_nul(path.as_str()) {
                    return Err(Failure::NulInPath(path));
                }
                match discard(&self.repo, path.as_str(), change)? {
                    DiscardPlan::RemoveUntracked { path } => Ok(Some(Removal { path })),
                    DiscardPlan::CheckedOut => {
                        self.refresh()?;
                        self.status_msg = Some(String::from_str("discarded"));
                        Ok(None)
                    },
                }
            },
        }
    }

    /// Completes a discard after the untracked file was deleted: reloads the
    /// list and says so.
    pub fn finish_discard(&mut self) -> (r: Result<(), Failure>)
        requires
            old(self).wf(),
        ensures
            final(self).wf(),
            finish_discard_post(*old(self), *final(self), r),
    {
        self.refresh()?;
        self.status_msg = Some(String::from_str("discarded"));
        Ok(())
    }

    /// The cached diff for this path and section, if there is one.
    pub fn cached_diff(&self, path: &str, section: Section) -> (r: Option<&DiffText>)
        ensures
            match cache_index(self.diff_cache@, path@, section, 0) {
                Some(k) => r == Some(&self.diff_cache@[k].text),
                None => r is None,
            },
    {
        let p = String::from_str(path);
        let mut k: usize = 0;
        while k < self.diff_cache.len()
            invariant
                p@ == path@,
                k <= self.diff_cache@.len(),
                cache_index(self.diff_cache@, path@, section, 0) == cache_index(
                    self.diff_cache@,
                    path@,
                    section,
                    k as int,
                ),
            decreases self.diff_cache.len() - k,
        {
            if self.diff_cache[k].path == p && self.diff_cache[k].section == section {
                return Some(&self.diff_cache[k].text);
            }
            k = k + 1;
        }
        None
    }

    /// The diff of the selected entry: computed (without highlighting) and
    /// cached first if it is not cached yet, a failure cached as its message;
    /// `None` only where nothing is selected.
    pub fn current_diff(&mut self) -> (r: Option<&DiffText>)
        requires
            old(self).wf(),
        ensures
            final(self).wf(),
            ensure_diff_post(*old(self), *final(self)),
            match current_cached(*final(self)) {
                Some(t) => r == Some(&t),
                None => r is None,
            },
            old(self).current_file() is Some <==> r is Some,
    {
        self.ensure_current_diff();
        self.cached_current_diff()
    }

    /// The cached diff of the selected entry, if there is one.
    pub fn cached_current_diff(&self) -> (r: Option<&DiffText>)
        ensures
            match current_cached(*self) {
                Some(t) => r == Some(&t),
                None => r is None,
            },
    {
        if self.selected >= self.files.len() {
            return None;
        }
        let f = &self.files[self.selected];
        self.cached_diff(f.path.as_str(), f.section)
    }

    /// The selected entry when its diff is not cached yet.
    pub fn pending_diff(&self) -> (r: Option<FileEntry>)
        ensures
            r == match self.current_file() {
                Some(f) => if cache_index(self.diff_cache@, f.path@, f.section, 0) is None {
                    Some(f)
                } else {
                    None
                },
                None => None,
            },
    {
        if self.selected >= self.files.len() {
            return None;
        }
        let f = &self.files[self.selected];
        if self.cached_diff(f.path.as_str(), f.section).is_some() {
            None
        } else {
            Some(f.clone())
        }
    }

    /// Keeps `text` as the diff of this path and section, unless one is kept already.
    pub fn store_diff(&mut self, path: String, section: Section, text: DiffText)
        ensures
            final(self).wf() == old(self).wf(),
            cache_index(old(self).diff_cache@, path@, section, 0) is None ==> final(self).diff_cache@ == old(self).diff_cache@.push(CachedDiff { path, section, text }),
            cache_index(old(self).diff_cache@, path@, section, 0) is Some ==> final(self).diff_cache@ == old(self).diff_cache@,
            *final(self) == (App { diff_cache: final(self).diff_cache, ..*old(self) }),
    {
        if self.cached_diff(path.as_str(), section).is_none() {
            proof {
                lemma_cache_index_none(self.diff_cache@, path@, section, 0);
            }
            let ghost before = self.diff_cache@;
            self.diff_cache.push(CachedDiff { path, section, text });
            proof {
                let after = self.diff_cache@;
                assert forall|i: int| 0 <= i < before.len() implies #[trigger] after[i] == before[i] by {}
                if cache_distinct(before) {
                    assert forall|i: int, j: int| 0 <= i < j < after.len() implies !same_key(
                        #[trigger] after[i],
                        #[trigger] after[j],
                    ) by {
                        assert(after[i] == before[i]);
                        if j < before.len() {
                            assert(after[j] == before[j]);
                        }
                    }
                } else {
                    let (i, j) = choose|i: int, j: int| 0 <= i < j < before.len() && same_key(#[trigger] before[i], #[trigger] before[j]);
                    assert(same_key(after[i], after[j]));
                }
            }
        }
    }

    /// The patch of an entry: against the review's trees in review mode, else
    /// between HEAD, index and working tree as its section says.
    pub fn compute_patch(&self, file: &FileEntry) -> (r: Result<String, Failure>)
        ensures
            match r {
                Ok(s) => exists|ls: Seq<PatchLine>| #[trigger] patch_text(ls) == s@,
                Err(e) => patch_failure(self.mode, *file, e),
            },
    {
        match &self.mode {
            Mode::Status => {
                if file.section != Section::Review && !no_nul(file.path.as_str()) {
                    return Err(Failure::NulInPath(file.path.clone()));
                }
                diff_for(&self.repo, file.path.as_str(), file.section)
            },
            Mode::Review { left, right, .. } => {
                if !no_nul(file.path.as_str()) {
                    return Err(Failure::NulInPath(file.path.clone()));
                }
                if let Some(o) = &file.old_path {
                    if !no_nul(o.as_str()) {
                        return Err(Failure::NulInPath(o.clone()));
                    }
                }
                diff_for_review(&self.repo, file, *left, *right)
            },
        }
    }

    /// Makes sure the selected entry's diff is cached, computing it (without
    /// highlighting) if it is not; a failure is cached as its message.
    pub fn ensure_current_diff(&mut self)
        requires
            old(self).wf(),
        ensures
            final(self).wf(),
            ensure_diff_post(*old(self), *final(self)),
    {
        if let Some(f) = self.pending_diff() {
            let text = match self.compute_patch(&f) {
                Ok(p) => DiffText::Plain(p),
                Err(e) => failed_diff(&e),
            };
            let ghost before = self.diff_cache@;
            self.store_diff(f.path, f.section, text);
            assert(before.is_prefix_of(self.diff_cache@));
            assert(self.diff_cache@.drop_last() =~= before);
            proof {
                lemma_cache_index_push(before, f.path@, f.section, self.diff_cache@.last(), 0);
            }
        } else {
            assert(old(self).diff_cache@.is_prefix_of(self.diff_cache@));
        }
    }

    /// Scrolls the diff so that its last line is at the top.
    pub fn scroll_diff_bottom(&mut self)
        requires
            old(self).wf(),
        ensures
            final(self).wf(),
            scroll_diff_bottom_post(*old(self), *final(self)),
    {
        self.ensure_current_diff();
        let lines = match self.cached_current_diff() {
            Some(d) => count_lines(d.text().as_str()),
            None => 0,
        };
        let target = if lines > 0 {
            lines - 1
        } else {
            0
        };
        self.diff_scroll = if target > 65535 {
            65535
        } else {
            target as u16
        };
    }
}

/// Adding an entry for another key leaves the first match of this key where
/// it was; adding one for this key where there was none makes it found.
pub proof fn lemma_cache_index_push(
    cache: Seq<CachedDiff>,
    path: Seq<char>,
    section: Section,
    x: CachedDiff,
    from: int,
)
    requires
        0 <= from <= cache.len(),
        cache_index(cache, path, section, from) is None,
        x.path@ == path,
        x.section == section,
    ensures
        cache_index(cache.push(x), path, section, from) == Some(cache.len() as int),
    decreases cache.len() - from,
{
    if from < cache.len() {
        lemma_cache_index_push(cache, path, section, x, from + 1);
    }
}

/// The diff shown when it could not be computed.
pub fn failed_diff(e: &Failure) -> (d: DiffText)
    ensures
        d matches DiffText::Plain(s) && s@ == failed_diff_text(*e),
{
    let mut s = String::from_str("error computing diff: ");
    s.append(e.message().as_str());
    DiffText::Plain(s)
}

/// An optional position as an optional integer.
pub open spec fn as_index(o: Option<usize>) -> Option<int> {
    match o {
        Some(i) => Some(i as int),
        None => None,
    }
}

/// The first index of an entry with this path (and this section, if one is given).
pub fn find_entry(files: &Vec<FileEntry>, path: &str, section: Option<Section>) -> (r: Option<usize>)
    ensures
        match section {
            Some(s) => as_index(r) == index_with(files@, path@, s, 0),
            None => as_index(r) == index_with_path(files@, path@, 0),
        },
        r matches Some(i) ==> i < files@.len(),
{
    let p = String::from_str(path);
    let mut k: usize = 0;
    while k < files.len()
        invariant
            p@ == path@,
            k <= files@.len(),
            section is None ==> index_with_path(files@, path@, 0) == index_with_path(
                files@,
                path@,
                k as int,
            ),
            section matches Some(s) ==> index_with(files@, path@, s, 0) == index_with(
                files@,
                path@,
                s,
                k as int,
            ),
        decreases files.len() - k,
    {
        let same_section = match section {
            Some(s) => files[k].section == s,
            None => true,
        };
        if files[k].path == p && same_section {
            return Some(k);
        }
        k = k + 1;
    }
    None
}

/// The indices of the entries in section `s`.
pub fn indices_in(files: &Vec<FileEntry>, s: Section) -> (r: Vec<usize>)
    ensures
        r@ == section_indices(files@, s),
        forall|k: int| 0 <= k < r@.len() ==> #[trigger] r@[k] < files@.len(),
{
    let mut r: Vec<usize> = Vec::new();
    for i in 0..files.len()
        invariant
            r@ == section_indices(files@.take(i as int), s),
            forall|k: int| 0 <= k < r@.len() ==> #[trigger] r@[k] < i,
    {
        assert(files@.take(i + 1).drop_last() =~= files@.take(i as int));
        let ghost before = r@;
        if files[i].section == s {
            r.push(i);
            assert(r@ =~= before + seq![i]);
        } else {
            assert(r@ =~= before + seq![]);
        }
    }
    assert(files@.take(files.len() as int) =~= files@);
    r
}

/// The first index of an entry outside section `s`.
pub fn first_outside_of(files: &Vec<FileEntry>, s: Section) -> (r: Option<usize>)
    ensures
        as_index(r) == first_outside(files@, s, 0),
        r matches Some(i) ==> i < files@.len(),
{
    let mut k: usize = 0;
    while k < files.len()
        invariant
            k <= files@.len(),
            first_outside(files@, s, 0) == first_outside(files@, s, k as int),
        decreases files.len() - k,
    {
        if files[k].section != s {
            return Some(k);
        }
        k = k + 1;
    }
    None
}

} // verus!
