//! Properties of the viewer as a whole, proved from the contracts of its parts.
use vstd::prelude::*;

use crate::app::{
    cache_index, computed_entry, confirm_yes_post, current_cached, ensure_diff_post,
    finish_discard_post, listing_for, message_is, mode_reloaded, Confirm, Removal,
    search_submit_post, move_down_post, move_up_post, reload_state, scroll_diff_down_post, scroll_diff_up_post,
    search_next_post, search_prev_post, toggle_help_post, toggled, App, Search,
};
use crate::app::{
    focus_diff_post, focus_status_post, refresh_post, request_discard_post, request_edit_post,
    request_quit_post, scroll_diff_bottom_post, search_cancel_post, search_start_post,
    stage_selected_post, toggle_reviewed_post, unstage_selected_post, Pane,
};
use crate::keys::{as_unit, is_plain_g, no_removal};
use crate::git::{
    delta_entry, review_entries, review_listing, record_entries, status_entries, status_listing, Change, DeltaKind, DeltaRecord, FileEntry, Section,
    StatusRecord,
};
use crate::keys::{command_effect, command_for, modal, prepared, Command, Key, KeyPress};
use crate::search::{
    containing_positions, folded, lemma_index_at_least_in_range, lemma_positions_increasing,
    match_order, smart_lower,
};
use crate::text::seq_contains;
use crate::order::{char_weight, entry_lt, lex_lt, path_lt, path_weights, section_rank};
use crate::ui::{file_row_ok, help_of, path_width, row_count, rows_ok, HelpStyle, Row};

verus! {

/// Marking a file reviewed twice leaves the marks as they were.
pub proof fn law_toggle_twice(s: Set<Seq<char>>, p: Seq<char>)
    ensures
        toggled(toggled(s, p), p) == s,
{
    if s.contains(p) {
        assert(s.remove(p).insert(p) =~= s);
    } else {
        assert(s.insert(p).remove(p) =~= s);
    }
}

/// Showing the help twice leaves the state as it was.
pub proof fn law_help_twice(a: App, b: App, c: App)
    requires
        toggle_help_post(a, b),
        toggle_help_post(b, c),
    ensures
        c == a,
{
}

/// Review mode is read-only: `s`, `u` and `e` change nothing there but what
/// every key does (clearing the message and a waiting `g`); `X` only answers,
/// on a selected entry, that discarding applies to unstaged changes.
pub proof fn law_review_read_only(
    pre: App,
    key: KeyPress,
    rows: u16,
    post: App,
    r: Result<Option<crate::app::Removal>, crate::git::Failure>,
)
    requires
        pre.in_review(),
        !modal(pre),
        key.key == Key::Char('s') || key.key == Key::Char('X') || ((key.key == Key::Char('u')
            || key.key == Key::Char('e')) && !key.ctrl),
        command_effect(prepared(pre, key), command_for(pre, key, rows), post, r),
    ensures
        key.key == Key::Char('X') && pre.current_file() is Some ==> post == (App {
            status_msg: post.status_msg,
            ..prepared(pre, key)
        }) && message_is(post.status_msg, "discard only applies to unstaged changes"@),
        !(key.key == Key::Char('X') && pre.current_file() is Some) ==> post == prepared(pre, key),
        r matches Ok(None),
{
}

/// After the selected entry's diff is made sure of, the diff shown is the
/// one cached before if there was one, and otherwise the patch just computed
/// for that entry (or the message of the failure computing it).
pub proof fn law_current_diff(pre: App, post: App)
    requires
        ensure_diff_post(pre, post),
        pre.current_file() is Some,
    ensures
        ({
            let f = pre.current_file().unwrap();
            match cache_index(pre.diff_cache@, f.path@, f.section, 0) {
                Some(k) => current_cached(post) == Some(pre.diff_cache@[k].text),
                None => {
                    &&& computed_entry(pre.mode, f, post.diff_cache@.last())
                    &&& current_cached(post) == Some(post.diff_cache@.last().text)
                },
            }
        }),
{
    let f = pre.current_file().unwrap();
    assert(post.current_file() == pre.current_file());
    if cache_index(pre.diff_cache@, f.path@, f.section, 0) is None {
        let last = post.diff_cache@.last();
        assert(pre.diff_cache@.push(last) =~= post.diff_cache@);
        crate::app::lemma_cache_index_push(pre.diff_cache@, f.path@, f.section, last, 0);
    }
}

/// Discarding an untracked file, in full: `y` hands back the file to delete
/// (the pending path), and once it is deleted `finish_discard` reloads the
/// list and says so, just as discarding a tracked file does in one step.
pub proof fn law_untracked_discard(
    pre: App,
    mid: App,
    post: App,
    path: String,
    rm: Removal,
)
    requires
        pre.pending == Some(Confirm::Discard { path, change: Change::Untracked }),
        confirm_yes_post(pre, mid, Ok(Some(rm))),
        finish_discard_post(mid, post, Ok(())),
    ensures
        rm.path@ == path@,
        post.pending is None,
        mode_reloaded(pre.mode, post.mode),
        listing_for(post.mode, post.files@),
        message_is(post.status_msg, "discarded"@),
        reload_state(
            App { mode: post.mode, pending: None, ..pre },
            App { status_msg: pre.status_msg, ..post },
            post.files@,
        ),
{
}

/// The keys outside the modal states, as the key table gives them: each key
/// has the effect of the action it is bound to, on the state with the
/// message (and a waiting `g`) cleared. `j`/`k` move the selection when the
/// list has the focus and scroll the diff by a line when the diff has it;
/// Ctrl-d/Ctrl-u scroll by half the diff pane's `rows`; `G` goes to the last
/// line of the diff when it has the focus.
#[verifier::rlimit(40)]
pub proof fn law_key_table(
    pre: App,
    key: KeyPress,
    rows: u16,
    post: App,
    r: Result<Option<Removal>, crate::git::Failure>,
)
    requires
        !modal(pre),
        !is_plain_g(key),
        command_effect(prepared(pre, key), command_for(pre, key, rows), post, r),
    ensures
        ({
            let p = prepared(pre, key);
            let c = key.key;
            let plain = !key.ctrl;
            &&& c == Key::Char('q') ==> request_quit_post(p, post)
            &&& (c == Key::Char('h') || c == Key::Left) && plain ==> focus_status_post(p, post)
            &&& (c == Key::Char('l') || c == Key::Right) && plain ==> focus_diff_post(p, post)
            &&& c == Key::Char('d') && key.ctrl ==> scroll_diff_down_post(p, post, rows / 2)
            &&& c == Key::Char('u') && key.ctrl ==> scroll_diff_up_post(p, post, rows / 2)
            &&& (c == Key::Char('j') || c == Key::Down) && pre.focus == Pane::Status ==> move_down_post(p, post)
            &&& (c == Key::Char('j') || c == Key::Down) && pre.focus == Pane::Diff ==> scroll_diff_down_post(p, post, 1)
            &&& (c == Key::Char('k') || c == Key::Up) && pre.focus == Pane::Status ==> move_up_post(p, post)
            &&& (c == Key::Char('k') || c == Key::Up) && pre.focus == Pane::Diff ==> scroll_diff_up_post(p, post, 1)
            &&& c == Key::Char('G') && pre.focus == Pane::Diff ==> scroll_diff_bottom_post(p, post)
            &&& c == Key::Char('s') ==> no_removal(r) && stage_selected_post(p, post, as_unit(r))
            &&& c == Key::Char('u') && plain ==> no_removal(r) && unstage_selected_post(p, post, as_unit(r))
            &&& c == Key::Char('X') ==> request_discard_post(p, post)
            &&& c == Key::Char('e') && plain ==> request_edit_post(p, post)
            &&& c == Key::Char(' ') ==> toggle_reviewed_post(p, post)
            &&& c == Key::Char('?') ==> toggle_help_post(p, post)
            &&& c == Key::Char('/') ==> search_start_post(p, post)
            &&& c == Key::Char('n') && plain ==> search_next_post(p, post)
            &&& c == Key::Char('N') ==> search_prev_post(p, post)
            &&& (c == Key::Esc || c == Key::Char('\\')) ==> search_cancel_post(p, post)
            &&& c == Key::Char('r') ==> no_removal(r) && refresh_post(p, post, as_unit(r))
        }),
{
}

/// `g g` with the diff focused scrolls the diff to its top: the first `g`
/// waits, the second one goes to the top and forgets the wait.
pub proof fn law_gg_goes_to_top(
    a: App,
    rows: u16,
    b: App,
    c: App,
    r1: Result<Option<Removal>, crate::git::Failure>,
    r2: Result<Option<Removal>, crate::git::Failure>,
)
    requires
        !modal(a),
        !a.pending_g,
        a.focus == Pane::Diff,
        command_effect(
            prepared(a, KeyPress { key: Key::Char('g'), ctrl: false }),
            command_for(a, KeyPress { key: Key::Char('g'), ctrl: false }, rows),
            b,
            r1,
        ),
        command_effect(
            prepared(b, KeyPress { key: Key::Char('g'), ctrl: false }),
            command_for(b, KeyPress { key: Key::Char('g'), ctrl: false }, rows),
            c,
            r2,
        ),
    ensures
        b.pending_g,
        b.diff_scroll == a.diff_scroll,
        c == (App { diff_scroll: 0, pending_g: false, status_msg: None, ..a }),
{
}

/// Outside the modal states, Ctrl-d scrolls the diff down by half the lines
/// its pane shows and Ctrl-u up by as many (stopping at either end); nothing
/// else changes but the message and a waiting `g`, which are cleared.
pub proof fn law_half_page_scroll(
    pre: App,
    down: bool,
    rows: u16,
    post: App,
    r: Result<Option<crate::app::Removal>, crate::git::Failure>,
)
    requires
        !modal(pre),
        command_effect(
            prepared(pre, KeyPress { key: Key::Char(if down { 'd' } else { 'u' }), ctrl: true }),
            command_for(pre, KeyPress { key: Key::Char(if down { 'd' } else { 'u' }), ctrl: true }, rows),
            post,
            r,
        ),
    ensures
        r matches Ok(None),
        post == (App {
            diff_scroll: if down {
                pre.diff_scroll.saturating_add(rows / 2)
            } else {
                pre.diff_scroll.saturating_sub(rows / 2)
            },
            status_msg: None,
            pending_g: false,
            ..pre
        }),
{
}

/// Going to the next match and back returns to the same match, and selects it.
pub proof fn law_search_next_then_prev(a: App, b: App, c: App)
    requires
        a.wf(),
        a.search matches Search::Active { order, .. } && order@.len() <= usize::MAX,
        search_next_post(a, b),
        search_prev_post(b, c),
    ensures
        c.search == a.search,
        a.search matches Search::Active { order, cursor, .. } && c.selected == order@[cursor as int],
{
    if let Search::Active { query, matches, cursor, order } = a.search {
        let n = order@.len() as int;
        let c1 = (cursor + 1) % n;
        if cursor + 1 < n {
            vstd::arithmetic::div_mod::lemma_small_mod((cursor + 1) as nat, n as nat);
            assert(c1 == cursor + 1);
        } else {
            vstd::arithmetic::div_mod::lemma_mod_self_0(n);
            assert(c1 == 0);
        }
        assert(b.search == (Search::Active { query, matches, cursor: c1 as usize, order }));
        assert(c.search == (Search::Active { query, matches, cursor, order }));
    }
}

/// Moving down and back up returns to the same entry.
pub proof fn law_move_down_then_up(a: App, b: App, c: App)
    requires
        a.files@.len() <= usize::MAX,
        a.selected + 1 < a.files@.len(),
        move_down_post(a, b),
        move_up_post(b, c),
    ensures
        c.selected == a.selected,
        c.files == a.files,
{
}

/// Moving keeps a selection that is on the list on the list.
pub proof fn law_moves_stay_in_list(a: App, b: App, c: App)
    requires
        a.selected < a.files@.len(),
        move_down_post(a, b),
        move_up_post(a, c),
    ensures
        b.selected < b.files@.len(),
        c.selected < c.files@.len(),
{
}

/// Scrolling down and back up by the same amount returns to the same place,
/// unless the scroll hit its largest value.
pub proof fn law_scroll_down_then_up(a: App, b: App, c: App, n: u16)
    requires
        a.diff_scroll + n <= u16::MAX,
        scroll_diff_down_post(a, b, n),
        scroll_diff_up_post(b, c, n),
    ensures
        c == a,
{
}

/// After a reload the selection is on the list, unless the list is empty.
pub proof fn law_reload_selection_in_list(pre: App, post: App, files: Seq<FileEntry>)
    requires
        reload_state(pre, post, files),
    ensures
        files.len() > 0 ==> post.selected < files.len(),
        files.len() == 0 ==> post.selected == 0,
{
}

/// In the working-tree list every staged entry comes before every unstaged one.
pub proof fn law_staged_before_unstaged(recs: Seq<StatusRecord>, out: Seq<FileEntry>, i: int, j: int)
    requires
        status_listing(recs, out),
        0 <= i < j < out.len(),
        out[i].section == Section::Unstaged,
    ensures
        out[j].section != Section::Staged,
{
    assert(!entry_lt(out[j], out[i]));
}

/// A rename between two different paths is listed under its new path, with
/// the old one shown beside it.
pub proof fn law_rename_shown(d: DeltaRecord)
    requires
        d.status == DeltaKind::Renamed,
        d.new_path matches Some(n) && d.old_path matches Some(o) && n@ != o@,
    ensures
        delta_entry(d) == Some(
            FileEntry {
                path: d.new_path.unwrap(),
                old_path: d.old_path,
                change: Change::Renamed,
                section: Section::Review,
            },
        ),
{
}

/// The row the list puts the selection on shows the selected entry.
pub proof fn law_selected_row(app: App, width: u16, rows: Seq<Row>)
    requires
        app.selected < app.files@.len(),
        rows_ok(app, path_width(width, app.in_review()), rows, app.files@.len() as int),
    ensures
        ({
            let v = row_count(app.files@, app.selected + 1) - 1;
            0 <= v < rows.len() && (rows[v] matches Row::File(fr) && fr.selected)
        }),
{
    let sel = app.selected as int;
    crate::ui::lemma_row_count_monotone(app.files@, sel + 1, app.files@.len() as int);
    assert(file_row_ok(
        app,
        sel,
        path_width(width, app.in_review()),
        rows[row_count(app.files@, sel + 1) - 1],
    ));
}

/// What a working-tree entry can be: no review entry and no former path, and
/// an untracked or conflicted file only among the unstaged changes.
pub open spec fn status_entry_ok(e: FileEntry) -> bool {
    &&& e.section != Section::Review
    &&& e.old_path is None
    &&& (e.change == Change::Untracked || e.change == Change::Conflicted) ==> e.section
        == Section::Unstaged
}

proof fn lemma_status_entries_ok(recs: Seq<StatusRecord>)
    ensures
        forall|k: int| 0 <= k < status_entries(recs).len() ==> status_entry_ok(#[trigger] status_entries(recs)[k]),
    decreases recs.len(),
{
    if recs.len() > 0 {
        lemma_status_entries_ok(recs.drop_last());
        let a = status_entries(recs.drop_last());
        let b = record_entries(recs.last());
        assert(status_entries(recs) == a + b);
        assert forall|k: int| 0 <= k < (a + b).len() implies status_entry_ok(#[trigger] (a + b)[k]) by {
            if k < a.len() {
                assert((a + b)[k] == a[k]);
            } else {
                assert((a + b)[k] == b[k - a.len()]);
            }
        }
    }
}

/// Every entry of the working-tree list is a staged or unstaged change with
/// no former path, and untracked and conflicted files are listed only as
/// unstaged changes.
pub proof fn law_status_entries(recs: Seq<StatusRecord>, out: Seq<FileEntry>, i: int)
    requires
        status_listing(recs, out),
        0 <= i < out.len(),
    ensures
        status_entry_ok(out[i]),
{
    lemma_status_entries_ok(recs);
    vstd::seq_lib::to_multiset_contains(out, out[i]);
    assert(out.contains(out[i]));
    vstd::seq_lib::to_multiset_contains(status_entries(recs), out[i]);
}

/// What a review entry can be: in the review section, never untracked or
/// conflicted, and with a former path only for a rename or a copy.
pub open spec fn review_entry_ok(e: FileEntry) -> bool {
    &&& e.section == Section::Review
    &&& e.change != Change::Untracked
    &&& e.change != Change::Conflicted
    &&& e.old_path is Some ==> (e.change == Change::Renamed || e.change == Change::Modified)
}

proof fn lemma_review_entries_ok(ds: Seq<DeltaRecord>)
    ensures
        forall|k: int| 0 <= k < review_entries(ds).len() ==> review_entry_ok(#[trigger] review_entries(ds)[k]),
    decreases ds.len(),
{
    if ds.len() > 0 {
        lemma_review_entries_ok(ds.drop_last());
        let a = review_entries(ds.drop_last());
        let b: Seq<FileEntry> = match delta_entry(ds.last()) {
            Some(e) => seq![e],
            None => seq![],
        };
        assert(review_entries(ds) == a + b);
        assert forall|k: int| 0 <= k < (a + b).len() implies review_entry_ok(#[trigger] (a + b)[k]) by {
            if k < a.len() {
                assert((a + b)[k] == a[k]);
            } else {
                assert((a + b)[k] == b[k - a.len()]);
            }
        }
    }
}

/// Every entry of a review list is a review entry, never untracked or
/// conflicted, and shows a former path only for a rename or a copy.
pub proof fn law_review_entries(ds: Seq<DeltaRecord>, out: Seq<FileEntry>, i: int)
    requires
        review_listing(ds, out),
        0 <= i < out.len(),
    ensures
        review_entry_ok(out[i]),
{
    lemma_review_entries_ok(ds);
    vstd::seq_lib::to_multiset_contains(out, out[i]);
    assert(out.contains(out[i]));
    vstd::seq_lib::to_multiset_contains(review_entries(ds), out[i]);
}

/// A text that contains the needle has its position among the positions found.
proof fn lemma_position_found(hays: Seq<Seq<char>>, needle: Seq<char>, i: int)
    requires
        0 <= i < hays.len(),
        hays.len() <= usize::MAX,
        seq_contains(hays[i], needle),
    ensures
        containing_positions(hays, needle).contains(i as usize),
    decreases hays.len(),
{
    let rest = containing_positions(hays.drop_last(), needle);
    if i == hays.len() - 1 {
        assert((rest + seq![i as usize])[rest.len() as int] == i as usize);
    } else {
        lemma_position_found(hays.drop_last(), needle, i);
        let j = choose|j: int| 0 <= j < rest.len() && rest[j] == i as usize;
        let tail: Seq<usize> = if seq_contains(hays.last(), needle) {
            seq![(hays.len() - 1) as usize]
        } else {
            seq![]
        };
        assert((rest + tail)[j] == i as usize);
    }
}

/// Every position found is that of a text containing the needle.
proof fn lemma_found_contains(hays: Seq<Seq<char>>, needle: Seq<char>)
    requires
        hays.len() <= usize::MAX,
    ensures
        forall|k: int|
            0 <= k < containing_positions(hays, needle).len() ==> {
                let p = #[trigger] containing_positions(hays, needle)[k] as int;
                0 <= p < hays.len() && seq_contains(hays[p], needle)
            },
    decreases hays.len(),
{
    if hays.len() > 0 {
        lemma_found_contains(hays.drop_last(), needle);
        let rest = containing_positions(hays.drop_last(), needle);
        let tail: Seq<usize> = if seq_contains(hays.last(), needle) {
            seq![(hays.len() - 1) as usize]
        } else {
            seq![]
        };
        assert(containing_positions(hays, needle) == rest + tail);
        assert forall|k: int| 0 <= k < (rest + tail).len() implies {
            let p = #[trigger] (rest + tail)[k] as int;
            0 <= p < hays.len() && seq_contains(hays[p], needle)
        } by {
            if k < rest.len() {
                assert((rest + tail)[k] == rest[k]);
                assert(hays[rest[k] as int] == hays.drop_last()[rest[k] as int]);
            } else {
                assert((rest + tail)[k] == tail[k - rest.len()]);
            }
        }
    }
}

/// When a submitted search finds matches, the entry it selects is one of
/// them: its path contains the query (both lowercased for a query without
/// uppercase letters).
pub proof fn law_submit_selects_a_match(pre: App, post: App)
    requires
        pre.wf(),
        pre.files@.len() <= usize::MAX,
        search_submit_post(pre, post),
        post.search is Active,
    ensures
        post.selected < post.files@.len(),
        pre.search matches Search::Input(q) && seq_contains(
            folded(post.files@[post.selected as int].path@, smart_lower(q@)),
            folded(q@, smart_lower(q@)),
        ),
{
    if let Search::Input(q) = pre.search {
        let lower = smart_lower(q@);
        let hays = pre.files@.map_values(|f: FileEntry| folded(f.path@, lower));
        let order = match_order(pre.files@, q@);
        lemma_found_contains(hays, folded(q@, lower));
        lemma_index_at_least_in_range(order, pre.selected, 0);
        let next = crate::search::next_match_index(order, pre.selected);
        assert(0 <= next < order.len());
        let p = order[next] as int;
        assert(hays[p] == folded(pre.files@[p].path@, lower));
    }
}

/// A text containing `q2` contains every run of `q2`.
proof fn lemma_contains_within(h: Seq<char>, q2: Seq<char>, q1: Seq<char>)
    requires
        seq_contains(h, q2),
        seq_contains(q2, q1),
    ensures
        seq_contains(h, q1),
{
    let i = choose|i: int| 0 <= i && i + q2.len() <= h.len() && #[trigger] h.subrange(i, i + q2.len()) == q2;
    let j = choose|j: int| 0 <= j && j + q1.len() <= q2.len() && #[trigger] q2.subrange(j, j + q1.len()) == q1;
    assert(h.subrange(i + j, i + j + q1.len()) =~= q1) by {
        assert forall|k: int| 0 <= k < q1.len() implies h.subrange(i + j, i + j + q1.len())[k] == q1[k] by {
            assert(h.subrange(i, i + q2.len())[j + k] == q2[j + k]);
            assert(q2.subrange(j, j + q1.len())[k] == q2[j + k]);
        }
    }
}

/// Typing more of a case-sensitive query never adds matches: where `q1`
/// has an uppercase letter (so the search keeps case) and occurs in `q2`,
/// every entry `q2` matches is one `q1` matches. With an all-lowercase query
/// the paths are compared lowercased, and nothing here states how Unicode
/// lowercasing treats a part of a text, so that case is left out.
pub proof fn law_narrowing_query(files: Seq<FileEntry>, q1: Seq<char>, q2: Seq<char>, k: int)
    requires
        files.len() <= usize::MAX,
        !smart_lower(q1),
        seq_contains(q2, q1),
        0 <= k < match_order(files, q2).len(),
    ensures
        match_order(files, q1).contains(match_order(files, q2)[k]),
{
    let j = choose|j: int| 0 <= j && j + q1.len() <= q2.len() && #[trigger] q2.subrange(j, j + q1.len()) == q1;
    let u = choose|u: int| 0 <= u < q1.len() && crate::text::uppercase_char(#[trigger] q1[u]);
    assert(q2.subrange(j, j + q1.len())[u] == q2[j + u]);
    assert(!smart_lower(q2));
    let hays = files.map_values(|f: FileEntry| folded(f.path@, false));
    assert(files.map_values(|f: FileEntry| folded(f.path@, smart_lower(q2))) =~= hays);
    assert(files.map_values(|f: FileEntry| folded(f.path@, smart_lower(q1))) =~= hays);
    lemma_found_contains(hays, q2);
    let p = match_order(files, q2)[k] as int;
    lemma_contains_within(hays[p], q2, q1);
    lemma_position_found(hays, q1, p);
}

/// Searching for the exact path of an entry finds that entry.
pub proof fn law_search_finds_own_path(files: Seq<FileEntry>, i: int)
    requires
        0 <= i < files.len(),
        files.len() <= usize::MAX,
    ensures
        match_order(files, files[i].path@).contains(i as usize),
{
    let q = files[i].path@;
    let lower = smart_lower(q);
    let hays = files.map_values(|f: FileEntry| folded(f.path@, lower));
    let needle = folded(q, lower);
    assert(hays[i] == needle);
    assert(hays[i].subrange(0, 0 + needle.len() as int) =~= needle);
    lemma_position_found(hays, needle, i);
}

/// The records name distinct paths.
pub open spec fn distinct_record_paths(recs: Seq<StatusRecord>) -> bool {
    forall|a: int, b: int|
        0 <= a < b < recs.len() && #[trigger] recs[a].path is Some && #[trigger] recs[b].path is Some
            ==> recs[a].path.unwrap()@ != recs[b].path.unwrap()@
}

/// Two entries share path and section.
pub open spec fn same_place(x: FileEntry, y: FileEntry) -> bool {
    x.path@ == y.path@ && x.section == y.section
}

/// No two entries share path and section.
pub open spec fn places_distinct(s: Seq<FileEntry>) -> bool {
    forall|a: int, b: int| 0 <= a < b < s.len() ==> !same_place(#[trigger] s[a], #[trigger] s[b])
}

/// Every entry of the records' entries has the path of one of the records.
proof fn lemma_entry_from_record(recs: Seq<StatusRecord>, k: int)
    requires
        0 <= k < status_entries(recs).len(),
    ensures
        exists|r: int| 0 <= r < recs.len() && #[trigger] recs[r].path == Some(status_entries(recs)[k].path),
    decreases recs.len(),
{
    let a = status_entries(recs.drop_last());
    let b = record_entries(recs.last());
    assert(status_entries(recs) == a + b);
    if k < a.len() {
        assert((a + b)[k] == a[k]);
        lemma_entry_from_record(recs.drop_last(), k);
        let r = choose|r: int| 0 <= r < recs.drop_last().len() && #[trigger] recs.drop_last()[r].path == Some(a[k].path);
        assert(recs[r] == recs.drop_last()[r]);
    } else {
        assert((a + b)[k] == b[k - a.len()]);
        assert(recs[recs.len() - 1].path == Some(b[k - a.len()].path));
    }
}

/// Records with distinct paths give entries with distinct places.
proof fn lemma_status_places_distinct(recs: Seq<StatusRecord>)
    requires
        distinct_record_paths(recs),
    ensures
        places_distinct(status_entries(recs)),
    decreases recs.len(),
{
    if recs.len() > 0 {
        let init = recs.drop_last();
        assert(distinct_record_paths(init)) by {
            assert forall|a: int, b: int|
                0 <= a < b < init.len() && #[trigger] init[a].path is Some && #[trigger] init[b].path is Some
                    implies init[a].path.unwrap()@ != init[b].path.unwrap()@ by {
                assert(init[a] == recs[a] && init[b] == recs[b]);
            }
        }
        lemma_status_places_distinct(init);
        let a = status_entries(init);
        let b = record_entries(recs.last());
        assert(status_entries(recs) == a + b);
        assert forall|x: int, y: int| 0 <= x < y < (a + b).len() implies !same_place(
            #[trigger] (a + b)[x],
            #[trigger] (a + b)[y],
        ) by {
            if y < a.len() {
                assert((a + b)[x] == a[x] && (a + b)[y] == a[y]);
            } else if x < a.len() {
                assert((a + b)[x] == a[x] && (a + b)[y] == b[y - a.len()]);
                lemma_entry_from_record(init, x);
                let r = choose|r: int| 0 <= r < init.len() && #[trigger] init[r].path == Some(a[x].path);
                assert(recs[r] == init[r]);
                assert(recs[recs.len() - 1].path == Some(b[y - a.len()].path));
                assert(recs[r].path is Some && recs[recs.len() - 1].path is Some);
            } else {
                assert((a + b)[x] == b[x - a.len()] && (a + b)[y] == b[y - a.len()]);
            }
        }
    }
}

/// A permutation of a sequence whose places are distinct has distinct places.
proof fn lemma_places_distinct_perm(out: Seq<FileEntry>, e: Seq<FileEntry>, i: int, j: int)
    requires
        out.to_multiset() == e.to_multiset(),
        places_distinct(e),
        0 <= i < j < out.len(),
    ensures
        !same_place(out[i], out[j]),
{
    broadcast use vstd::multiset::group_multiset_axioms;

    let x = out[i];
    let y = out[j];
    if same_place(x, y) {
        vstd::seq_lib::to_multiset_contains(out, x);
        assert(out.contains(x));
        vstd::seq_lib::to_multiset_contains(e, x);
        let a = choose|a: int| 0 <= a < e.len() && e[a] == x;
        if x != y {
            vstd::seq_lib::to_multiset_contains(out, y);
            assert(out.contains(y));
            vstd::seq_lib::to_multiset_contains(e, y);
            let b = choose|b: int| 0 <= b < e.len() && e[b] == y;
            if a < b {
                assert(!same_place(e[a], e[b]));
            } else {
                assert(!same_place(e[b], e[a]));
            }
        } else {
            let rest = out.remove(j);
            vstd::seq_lib::to_multiset_remove(out, j);
            assert(rest[i] == x);
            vstd::seq_lib::to_multiset_contains(rest, x);
            assert(out.to_multiset().count(x) >= 2);
            let erest = e.remove(a);
            vstd::seq_lib::to_multiset_remove(e, a);
            vstd::seq_lib::to_multiset_contains(erest, x);
            let c = choose|c: int| 0 <= c < erest.len() && erest[c] == x;
            let b = if c < a { c } else { c + 1 };
            assert(e[b] == x);
            if a < b {
                assert(!same_place(e[a], e[b]));
            } else {
                assert(!same_place(e[b], e[a]));
            }
        }
    }
}

/// Of two weight sequences, one comes first or they are equal.
proof fn lemma_lex_total(a: Seq<int>, b: Seq<int>)
    ensures
        lex_lt(a, b) || lex_lt(b, a) || a =~= b,
    decreases a.len(),
{
    if a.len() > 0 && b.len() > 0 && a[0] == b[0] {
        lemma_lex_total(a.drop_first(), b.drop_first());
        if a.drop_first() =~= b.drop_first() {
            assert(a =~= seq![a[0]] + a.drop_first());
            assert(b =~= seq![b[0]] + b.drop_first());
        }
    }
}

/// Paths with the same weights are the same path.
proof fn lemma_weights_injective(p: Seq<char>, q: Seq<char>)
    requires
        path_weights(p) =~= path_weights(q),
    ensures
        p =~= q,
{
    assert(p.len() == path_weights(p).len() && q.len() == path_weights(q).len());
    assert forall|k: int| 0 <= k < p.len() implies p[k] == q[k] by {
        assert(path_weights(p)[k] == char_weight(p[k]));
        assert(path_weights(q)[k] == char_weight(q[k]));
        vstd::utf8::char_u32_cast(p[k], p[k] as u32);
        vstd::utf8::char_u32_cast(q[k], q[k] as u32);
    }
}

/// In the working-tree list, within a section, paths strictly ascend: no
/// path is listed twice in a section, as long as git reports each path once.
pub proof fn law_status_paths_ascend(recs: Seq<StatusRecord>, out: Seq<FileEntry>, i: int, j: int)
    requires
        status_listing(recs, out),
        distinct_record_paths(recs),
        0 <= i < j < out.len(),
        out[i].section == out[j].section,
    ensures
        path_lt(out[i].path@, out[j].path@),
{
    assert(!entry_lt(out[j], out[i]));
    lemma_status_places_distinct(recs);
    lemma_places_distinct_perm(out, status_entries(recs), i, j);
    lemma_lex_total(path_weights(out[i].path@), path_weights(out[j].path@));
    if path_weights(out[i].path@) =~= path_weights(out[j].path@) {
        lemma_weights_injective(out[i].path@, out[j].path@);
    }
}

/// The help lists staging, unstaging, discarding and editing only outside
/// review mode, and the review key and the read-only note only in it; it
/// always ends with how to close it.
#[verifier::rlimit(60)]
pub proof fn law_help_by_mode(review: bool)
    ensures
        help_of(review).last() == ("? / Esc / q to close"@, HelpStyle::Dim),
        help_of(review).contains(("  s             stage selected"@, HelpStyle::Plain)) == !review,
        help_of(review).contains(("  u             unstage selected"@, HelpStyle::Plain)) == !review,
        help_of(review).contains(("  X             discard (confirm with y)"@, HelpStyle::Plain)) == !review,
        help_of(review).contains(("  e             edit selected file in $EDITOR"@, HelpStyle::Plain)) == !review,
        help_of(review).contains(("  Space         toggle reviewed"@, HelpStyle::Plain)) == review,
        help_of(review).contains(("review mode is read-only"@, HelpStyle::Dim)) == review,
{
    reveal_strlit("Keybindings");
    reveal_strlit("");
    reveal_strlit("  h / l (\u{2190}/\u{2192})   focus status / diff pane");
    reveal_strlit("  j / k (\u{2193}/\u{2191})   move down / up (or scroll diff when focused)");
    reveal_strlit("  gg / G        top / bottom of diff (when diff focused)");
    reveal_strlit("  Ctrl-d / -u   half-page scroll diff");
    reveal_strlit("  s             stage selected");
    reveal_strlit("  u             unstage selected");
    reveal_strlit("  X             discard (confirm with y)");
    reveal_strlit("  / n N         search file names / next / prev");
    reveal_strlit("  Esc / \\       clear search highlight");
    reveal_strlit("  Space         toggle reviewed");
    reveal_strlit("  e             edit selected file in $EDITOR");
    reveal_strlit("  r             refresh");
    reveal_strlit("  ?             toggle this help");
    reveal_strlit("  q             quit");
    reveal_strlit("review mode is read-only");
    reveal_strlit("? / Esc / q to close");
    let h = help_of(review);
    let keys: Seq<(Seq<char>, HelpStyle)> = seq![
        ("  s             stage selected"@, HelpStyle::Plain),
        ("  u             unstage selected"@, HelpStyle::Plain),
        ("  X             discard (confirm with y)"@, HelpStyle::Plain),
        ("  e             edit selected file in $EDITOR"@, HelpStyle::Plain),
        ("  Space         toggle reviewed"@, HelpStyle::Plain),
        ("review mode is read-only"@, HelpStyle::Dim),
    ];
    assert forall|j: int| 0 <= j < keys.len() implies #[trigger] h.contains(keys[j]) == (if j < 4 {
        !review
    } else {
        review
    }) by {
        let x = keys[j];
        if h.contains(x) {
            let k = choose|k: int| 0 <= k < h.len() && h[k] == x;
            assert(h[k].0.len() == x.0.len());
            if x.0.len() > 2 {
                assert(h[k].0[2] == x.0[2]);
            }
        }
        if j < 4 && !review {
            let k: int = if j < 3 { 6 + j } else { 11 };
            assert(h[k] == x);
        }
        if j >= 4 && review {
            let k: int = if j == 4 { 8 } else { 13 };
            assert(h[k] == x);
        }
    }
    assert(h.contains(keys[0]) == !review && h.contains(keys[4]) == review);
}

/// Every entry a record stands for is among the entries of the records.
proof fn lemma_record_entry_listed(recs: Seq<StatusRecord>, k: int, x: FileEntry)
    requires
        0 <= k < recs.len(),
        record_entries(recs[k]).contains(x),
    ensures
        status_entries(recs).contains(x),
    decreases recs.len(),
{
    let a = status_entries(recs.drop_last());
    let b = record_entries(recs.last());
    assert(status_entries(recs) == a + b);
    if k < recs.len() - 1 {
        assert(recs.drop_last()[k] == recs[k]);
        lemma_record_entry_listed(recs.drop_last(), k, x);
        let j = choose|j: int| 0 <= j < a.len() && a[j] == x;
        assert((a + b)[j] == x);
    } else {
        let j = choose|j: int| 0 <= j < b.len() && b[j] == x;
        assert((a + b)[a.len() + j] == x);
    }
}

/// A file `git status` reports as new in the working tree (and not in
/// conflict) is listed as an untracked, unstaged entry under its path.
pub proof fn law_untracked_file_listed(recs: Seq<StatusRecord>, out: Seq<FileEntry>, k: int)
    requires
        status_listing(recs, out),
        0 <= k < recs.len(),
        recs[k].path is Some,
        !crate::git::flag_set(recs[k].bits, crate::git::STATUS_CONFLICTED),
        crate::git::flag_set(recs[k].bits, crate::git::STATUS_WT_NEW),
    ensures
        out.contains(
            FileEntry {
                path: recs[k].path.unwrap(),
                old_path: None,
                change: Change::Untracked,
                section: Section::Unstaged,
            },
        ),
{
    let x = FileEntry {
        path: recs[k].path.unwrap(),
        old_path: None,
        change: Change::Untracked,
        section: Section::Unstaged,
    };
    let rec = recs[k];
    let first = crate::git::opt_entry(rec.path.unwrap(), crate::git::index_change_of(rec.bits), Section::Staged);
    let second = crate::git::opt_entry(rec.path.unwrap(), crate::git::workdir_change_of(rec.bits), Section::Unstaged);
    assert(record_entries(rec) == first + second);
    assert(second == seq![x]);
    assert((first + second)[first.len() as int] == x);
    lemma_record_entry_listed(recs, k, x);
    vstd::seq_lib::to_multiset_contains(status_entries(recs), x);
    vstd::seq_lib::to_multiset_contains(out, x);
}

/// The selection is on an entry of the list, or at the top of an empty one.
pub open spec fn selection_on_list(a: App) -> bool {
    a.selected < a.files@.len() || a.selected == 0
}

/// The entries an active search visits are entries of the list.
pub open spec fn search_on_list(a: App) -> bool {
    a.search matches Search::Active { order, .. } ==> forall|k: int|
        0 <= k < order@.len() ==> #[trigger] order@[k] < a.files@.len()
}

/// A search's matches are entries of the list it ran on.
pub proof fn lemma_matches_on_list(files: Seq<FileEntry>, q: Seq<char>)
    requires
        files.len() <= usize::MAX,
    ensures
        forall|k: int| 0 <= k < match_order(files, q).len() ==> #[trigger] match_order(files, q)[k] < files.len(),
{
    let lower = crate::search::smart_lower(q);
    lemma_positions_increasing(
        files.map_values(|f: FileEntry| crate::search::folded(f.path@, lower)),
        crate::search::folded(q, lower),
    );
}

/// No key press takes the selection off the list, as long as the entries an
/// active search visits are on it.
#[verifier::rlimit(40)]
pub proof fn law_key_keeps_selection_on_list(
    pre: App,
    key: KeyPress,
    rows: u16,
    post: App,
    r: Result<Option<crate::app::Removal>, crate::git::Failure>,
)
    requires
        pre.wf(),
        pre.files@.len() <= usize::MAX,
        selection_on_list(pre),
        search_on_list(pre),
        command_effect(prepared(pre, key), command_for(pre, key, rows), post, r),
    ensures
        selection_on_list(post),
{
    let p = prepared(pre, key);
    assert(p.selected == pre.selected && p.files == pre.files && p.search == pre.search);
    match command_for(pre, key, rows) {
        Command::SearchSubmit => {
            if let Search::Input(q) = p.search {
                lemma_matches_on_list(p.files@, q@);
                lemma_index_at_least_in_range(match_order(p.files@, q@), p.selected, 0);
            }
        },
        Command::SearchNext => {
            if let Search::Active { cursor, order, .. } = p.search {
                vstd::arithmetic::div_mod::lemma_mod_pos_bound((cursor + 1) as int, order@.len() as int);
            }
        },
        _ => {},
    }
}

} // verus!
