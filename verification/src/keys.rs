//! What a key press does: which command it means in the current state, and
//! running that command. Also the command line.
use vstd::prelude::*;

use crate::app::{
    confirm_no_post, confirm_yes_post, focus_diff_post, focus_status_post, move_down_post,
    move_up_post, refresh_post, request_discard_post, request_edit_post, request_quit_post,
    scroll_diff_bottom_post, scroll_diff_down_post, scroll_diff_up_post, search_cancel_post,
    search_input_pop_post, search_input_push_post, search_next_post, search_prev_post,
    search_start_post, search_submit_post, stage_selected_post, toggle_help_post,
    toggle_reviewed_post, unstage_selected_post, App, Pane, Removal, Search,
};
use crate::git::Failure;
use crate::text::chars_of;

verus! {

/// A key, as far as the viewer tells keys apart.
#[derive(Debug, Clone, Copy, PartialEq, Eq, Structural)]
pub enum Key {
    Char(char),
    Esc,
    Enter,
    Backspace,
    Left,
    Right,
    Up,
    Down,
    Other,
}

/// A key press: the key and whether Control was held.
#[derive(Debug, Clone, Copy, PartialEq, Eq, Structural)]
pub struct KeyPress {
    pub key: Key,
    pub ctrl: bool,
}

/// What a key press asks for.
#[derive(Debug, Clone, Copy, PartialEq, Eq, Structural)]
pub enum Command {
    SearchCancel,
    SearchSubmit,
    SearchPop,
    SearchPush(char),
    CloseHelp,
    Ignore,
    ConfirmYes,
    ConfirmNo,
    /// The first `g` of `gg`.
    FirstG,
    /// The second `g` of `gg`: to the top of the diff when it has the focus.
    SecondG,
    Quit,
    FocusStatus,
    FocusDiff,
    ScrollDown(u16),
    ScrollUp(u16),
    MoveDown,
    MoveUp,
    ScrollBottom,
    Stage,
    Unstage,
    RequestDiscard,
    RequestEdit,
    ToggleReviewed,
    ToggleHelp,
    SearchStart,
    SearchNext,
    SearchPrev,
    Refresh,
}

/// A search query is being typed, the help is shown, or a confirmation is
/// pending: keys answer that first.
pub open spec fn modal(app: App) -> bool {
    app.search is Input || app.show_help || app.pending is Some
}

pub open spec fn is_plain_g(k: KeyPress) -> bool {
    k.key == Key::Char('g') && !k.ctrl
}

/// The command of a key outside the modal states and `g`, for a diff pane
/// showing `rows` lines of text (Ctrl-d and Ctrl-u scroll half of them).
pub open spec fn normal_command(focus: Pane, k: KeyPress, rows: u16) -> Command {
    let c = k.key;
    if c == Key::Char('q') {
        Command::Quit
    } else if (c == Key::Char('h') || c == Key::Left) && !k.ctrl {
        Command::FocusStatus
    } else if (c == Key::Char('l') || c == Key::Right) && !k.ctrl {
        Command::FocusDiff
    } else if c == Key::Char('d') && k.ctrl {
        Command::ScrollDown(rows / 2)
    } else if c == Key::Char('u') && k.ctrl {
        Command::ScrollUp(rows / 2)
    } else if c == Key::Char('j') || c == Key::Down {
        if focus == Pane::Status {
            Command::MoveDown
        } else {
            Command::ScrollDown(1)
        }
    } else if c == Key::Char('k') || c == Key::Up {
        if focus == Pane::Status {
            Command::MoveUp
        } else {
            Command::ScrollUp(1)
        }
    } else if c == Key::Char('G') && focus == Pane::Diff {
        Command::ScrollBottom
    } else if c == Key::Char('s') {
        Command::Stage
    } else if c == Key::Char('u') && !k.ctrl {
        Command::Unstage
    } else if c == Key::Char('X') {
        Command::RequestDiscard
    } else if c == Key::Char('e') && !k.ctrl {
        Command::RequestEdit
    } else if c == Key::Char(' ') {
        Command::ToggleReviewed
    } else if c == Key::Char('?') {
        Command::ToggleHelp
    } else if c == Key::Char('/') {
        Command::SearchStart
    } else if c == Key::Char('n') && !k.ctrl {
        Command::SearchNext
    } else if c == Key::Char('N') {
        Command::SearchPrev
    } else if c == Key::Esc || c == Key::Char('\\') {
        Command::SearchCancel
    } else if c == Key::Char('r') {
        Command::Refresh
    } else {
        Command::Ignore
    }
}

/// The command a key press means in state `app`, with a diff pane showing
/// `rows` lines of text.
pub open spec fn command_for(app: App, k: KeyPress, rows: u16) -> Command {
    if app.search is Input {
        match k.key {
            Key::Esc => Command::SearchCancel,
            Key::Enter => Command::SearchSubmit,
            Key::Backspace => Command::SearchPop,
            Key::Char(c) => Command::SearchPush(c),
            _ => Command::Ignore,
        }
    } else if app.show_help {
        if k.key == Key::Char('?') || k.key == Key::Esc || k.key == Key::Char('q') {
            Command::CloseHelp
        } else {
            Command::Ignore
        }
    } else if app.pending is Some {
        if k.key == Key::Char('y') {
            Command::ConfirmYes
        } else {
            Command::ConfirmNo
        }
    } else if is_plain_g(k) {
        if app.pending_g {
            Command::SecondG
        } else {
            Command::FirstG
        }
    } else {
        normal_command(app.focus, k, rows)
    }
}

/// The state a command runs on: outside the modal states a key clears the
/// message and, unless it is a `g`, a waiting first `g`.
pub open spec fn prepared(app: App, k: KeyPress) -> App {
    if modal(app) {
        app
    } else {
        App {
            status_msg: None,
            pending_g: if is_plain_g(k) {
                app.pending_g
            } else {
                false
            },
            ..app
        }
    }
}

/// The result of a command that hands nothing back, as a plain result.
pub open spec fn as_unit(r: Result<Option<Removal>, Failure>) -> Result<(), Failure> {
    match r {
        Ok(_) => Ok(()),
        Err(e) => Err(e),
    }
}

/// A command that hands back nothing succeeded without a removal, or failed.
pub open spec fn no_removal(r: Result<Option<Removal>, Failure>) -> bool {
    r matches Ok(None) || r is Err
}

/// What running `cmd` on `pre` does: the effect of the method it stands for.
pub open spec fn command_effect(
    pre: App,
    cmd: Command,
    post: App,
    r: Result<Option<Removal>, Failure>,
) -> bool {
    match cmd {
        Command::ConfirmYes => confirm_yes_post(pre, post, r),
        Command::Stage => no_removal(r) && stage_selected_post(pre, post, as_unit(r)),
        Command::Unstage => no_removal(r) && unstage_selected_post(pre, post, as_unit(r)),
        Command::Refresh => no_removal(r) && refresh_post(pre, post, as_unit(r)),
        _ => r matches Ok(None) && match cmd {
            Command::SearchCancel => search_cancel_post(pre, post),
            Command::SearchSubmit => search_submit_post(pre, post),
            Command::SearchPop => search_input_pop_post(pre, post),
            Command::SearchPush(c) => search_input_push_post(pre, post, c),
            Command::CloseHelp => post == (App { show_help: false, ..pre }),
            Command::ConfirmNo => confirm_no_post(pre, post),
            Command::FirstG => post == (App { pending_g: true, ..pre }),
            Command::SecondG => post == if pre.focus == Pane::Diff {
                App { pending_g: false, diff_scroll: 0, ..pre }
            } else {
                App { pending_g: false, ..pre }
            },
            Command::Quit => request_quit_post(pre, post),
            Command::FocusStatus => focus_status_post(pre, post),
            Command::FocusDiff => focus_diff_post(pre, post),
            Command::ScrollDown(n) => scroll_diff_down_post(pre, post, n),
            Command::ScrollUp(n) => scroll_diff_up_post(pre, post, n),
            Command::MoveDown => move_down_post(pre, post),
            Command::MoveUp => move_up_post(pre, post),
            Command::ScrollBottom => scroll_diff_bottom_post(pre, post),
            Command::RequestDiscard => request_discard_post(pre, post),
            Command::RequestEdit => request_edit_post(pre, post),
            Command::ToggleReviewed => toggle_reviewed_post(pre, post),
            Command::ToggleHelp => toggle_help_post(pre, post),
            Command::SearchStart => search_start_post(pre, post),
            Command::SearchNext => search_next_post(pre, post),
            Command::SearchPrev => search_prev_post(pre, post),
            _ => post == pre,
        },
    }
}

fn key_is(k: KeyPress, c: char) -> (r: bool)
    ensures
        r == (k.key == Key::Char(c)),
{
    match k.key {
        Key::Char(d) => d == c,
        _ => false,
    }
}

/// The command of a key outside the modal states and `g`, for a diff pane
/// showing `rows` lines of text.
pub fn normal_key_command(focus: Pane, k: KeyPress, rows: u16) -> (c: Command)
    ensures
        c == normal_command(focus, k, rows),
{
    let ctrl = k.ctrl;
    if key_is(k, 'q') {
        Command::Quit
    } else if (key_is(k, 'h') || k.key == Key::Left) && !ctrl {
        Command::FocusStatus
    } else if (key_is(k, 'l') || k.key == Key::Right) && !ctrl {
        Command::FocusDiff
    } else if key_is(k, 'd') && ctrl {
        Command::ScrollDown(rows / 2)
    } else if key_is(k, 'u') && ctrl {
        Command::ScrollUp(rows / 2)
    } else if key_is(k, 'j') || k.key == Key::Down {
        if focus == Pane::Status {
            Command::MoveDown
        } else {
            Command::ScrollDown(1)
        }
    } else if key_is(k, 'k') || k.key == Key::Up {
        if focus == Pane::Status {
            Command::MoveUp
        } else {
            Command::ScrollUp(1)
        }
    } else if key_is(k, 'G') && focus == Pane::Diff {
        Command::ScrollBottom
    } else if key_is(k, 's') {
        Command::Stage
    } else if key_is(k, 'u') && !ctrl {
        Command::Unstage
    } else if key_is(k, 'X') {
        Command::RequestDiscard
    } else if key_is(k, 'e') && !ctrl {
        Command::RequestEdit
    } else if key_is(k, ' ') {
        Command::ToggleReviewed
    } else if key_is(k, '?') {
        Command::ToggleHelp
    } else if key_is(k, '/') {
        Command::SearchStart
    } else if key_is(k, 'n') && !ctrl {
        Command::SearchNext
    } else if key_is(k, 'N') {
        Command::SearchPrev
    } else if k.key == Key::Esc || key_is(k, '\\') {
        Command::SearchCancel
    } else if key_is(k, 'r') {
        Command::Refresh
    } else {
        Command::Ignore
    }
}

/// The command a key press means in the state `app`, with a diff pane
/// showing `rows` lines of text.
pub fn key_command(app: &App, k: KeyPress, rows: u16) -> (c: Command)
    ensures
        c == command_for(*app, k, rows),
{
    match &app.search {
        Search::Input(_) => {
            return match k.key {
                Key::Esc => Command::SearchCancel,
                Key::Enter => Command::SearchSubmit,
                Key::Backspace => Command::SearchPop,
                Key::Char(c) => Command::SearchPush(c),
                _ => Command::Ignore,
            };
        },
        _ => {},
    }
    if app.show_help {
        if key_is(k, '?') || k.key == Key::Esc || key_is(k, 'q') {
            Command::CloseHelp
        } else {
            Command::Ignore
        }
    } else if app.pending.is_some() {
        if key_is(k, 'y') {
            Command::ConfirmYes
        } else {
            Command::ConfirmNo
        }
    } else if key_is(k, 'g') && !k.ctrl {
        if app.pending_g {
            Command::SecondG
        } else {
            Command::FirstG
        }
    } else {
        normal_key_command(app.focus, k, rows)
    }
}

/// Runs a command.
pub fn run_command(app: &mut App, cmd: Command) -> (r: Result<Option<Removal>, Failure>)
    requires
        old(app).wf(),
    ensures
        final(app).wf(),
        command_effect(*old(app), cmd, *final(app), r),
{
    match cmd {
        Command::SearchCancel => app.search_cancel(),
        Command::SearchSubmit => app.search_submit(),
        Command::SearchPop => app.search_input_pop(),
        Command::SearchPush(c) => app.search_input_push(c),
        Command::CloseHelp => {
            app.show_help = false;
        },
        Command::Ignore => {},
        Command::ConfirmYes => {
            return app.confirm_yes();
        },
        Command::ConfirmNo => app.confirm_no(),
        Command::FirstG => {
            app.pending_g = true;
        },
        Command::SecondG => {
            app.pending_g = false;
            if app.focus == Pane::Diff {
                app.scroll_diff_top();
            }
        },
        Command::Quit => app.request_quit(),
        Command::FocusStatus => app.focus_status(),
        Command::FocusDiff => app.focus_diff(),
        Command::ScrollDown(n) => app.scroll_diff_down(n),
        Command::ScrollUp(n) => app.scroll_diff_up(n),
        Command::MoveDown => app.move_down(),
        Command::MoveUp => app.move_up(),
        Command::ScrollBottom => app.scroll_diff_bottom(),
        Command::Stage => {
            app.stage_selected()?;
        },
        Command::Unstage => {
            app.unstage_selected()?;
        },
        Command::RequestDiscard => app.request_discard(),
        Command::RequestEdit => app.request_edit(),
        Command::ToggleReviewed => app.toggle_reviewed(),
        Command::ToggleHelp => app.toggle_help(),
        Command::SearchStart => app.search_start(),
        Command::SearchNext => app.search_next(),
        Command::SearchPrev => app.search_prev(),
        Command::Refresh => {
            app.refresh()?;
        },
    }
    Ok(None)
}

/// Handles one key press, with a diff pane showing `rows` lines of text:
/// finds its command in the current state, clears the message (and a waiting
/// `g`) outside the modal states, and runs it. A removal handed back is for
/// the caller to perform before `finish_discard`.
pub fn handle_key(app: &mut App, key: KeyPress, rows: u16) -> (r: Result<Option<Removal>, Failure>)
    requires
        old(app).wf(),
    ensures
        final(app).wf(),
        command_effect(prepared(*old(app), key), command_for(*old(app), key, rows), *final(app), r),
{
    let cmd = key_command(app, key, rows);
    let is_modal = match &app.search {
        Search::Input(_) => true,
        _ => false,
    } || app.show_help || app.pending.is_some();
    if !is_modal {
        app.status_msg = None;
        if !(key_is(key, 'g') && !key.ctrl) {
            app.pending_g = false;
        }
    }
    run_command(app, cmd)
}

/// The text of the usage message.
pub open spec fn usage_text() -> Seq<char> {
    "Usage: gitty [<revspec>]"@
}

/// An argument that can be a revspec: it does not start with `-`.
pub open spec fn revspec_arg(a: Seq<char>) -> bool {
    a.len() == 0 || a[0] != '-'
}

/// The revspec given on the command line: none, or one argument that does
/// not start with `-`; anything else is a usage error.
pub fn parse_args(args: &Vec<String>) -> (r: Result<Option<String>, String>)
    ensures
        match r {
            Ok(None) => args@.len() == 0,
            Ok(Some(s)) => args@.len() == 1 && revspec_arg(args@[0]@) && s == args@[0],
            Err(m) => m@ == usage_text() && args@.len() != 0 && !(args@.len() == 1
                && revspec_arg(args@[0]@)),
        },
{
    if args.len() == 0 {
        return Ok(None);
    }
    if args.len() == 1 {
        let cs = chars_of(args[0].as_str());
        if cs.len() == 0 || cs[0] != '-' {
            return Ok(Some(args[0].clone()));
        }
    }
    Err(String::from_str("Usage: gitty [<revspec>]"))
}

} // verus!
