//! One frame of the console: the panel slides, and the keys of the frame
//! decide one edit of the input line, of the history browsing or of the
//! completion popup. What needs the command table or the clock (opening and
//! choosing completions, running a command, key repeat delays) is named by
//! the returned key action and done by the caller.
use vstd::prelude::*;
use crate::autocompletion::Autocompletion;
use crate::console_entry::ConsoleEntry;
use crate::console_edit::{
    cursor_inside_quotes, handle_backspace, handle_delete_key, handle_left_cursor,
    handle_right_cursor, insert_str_to_prompt, lemma_forward_stop_bound, push_range,
    quote_count, spec_backspace, spec_delete, spec_is_whitespace, spec_left, spec_right,
};
use crate::console_history::{
    down_pos, shown_line, slide, space_inserted, spec_slide, spec_space_inserted, up_pos,
    ConsoleHistory,
};

verus! {

/// What the keys of a frame ask of the console, in the order in which they
/// are tested.
#[derive(PartialEq, Eq, Structural, Clone, Copy, Debug)]
pub enum ConsoleKeyAction {
    /// Up with the popup open: highlight the previous completion.
    CompletionPrev,
    /// Up: one command further back in the history.
    HistoryPrev,
    /// Down with the popup open: highlight the next completion.
    CompletionNext,
    /// Down: one command nearer the present.
    HistoryNext,
    /// Left (key repeat allowed, cursor not at the start).
    CursorLeft,
    /// Right (key repeat allowed, cursor not at the end).
    CursorRight,
    CursorHome,
    CursorEnd,
    /// Backspace (key repeat allowed, cursor not at the start).
    Backspace,
    /// Delete (key repeat allowed, cursor not at the end).
    Delete,
    /// Ctrl+Space: open the completion popup.
    OpenCompletion,
    /// Space, Tab or Return (without Ctrl) with the popup open: take the
    /// highlighted completion; `close` unless Ctrl is held.
    ChooseCompletion { close: bool, by_enter: bool },
    /// Ctrl+R: clear the line and search the history.
    SearchHistory,
    /// Space: a blank goes in where `spec_space_inserted` allows it.
    TypeSpace,
    /// Typed text goes in at the cursor.
    TypeText,
    /// Escape with the popup open: close it.
    CloseCompletion,
    /// Return: run the line; `ctrl` is whether Ctrl is held.
    Submit { ctrl: bool },
    Nothing,
}

/// The keys and text of one frame.
pub struct ConsoleEvent {
    pub is_console_open: bool,
    /// Height the open panel slides to.
    pub console_height: i32,
    /// Whether the key repeat delay has passed.
    pub repeat_ready: bool,
    pub ctrl_down: bool,
    pub up_just_pressed: bool,
    pub down_just_pressed: bool,
    pub left_down: bool,
    pub right_down: bool,
    pub home_down: bool,
    pub end_down: bool,
    pub backspace_down: bool,
    pub delete_down: bool,
    pub space_down: bool,
    pub space_just_released: bool,
    pub tab_just_released: bool,
    pub return_just_released: bool,
    pub r_just_released: bool,
    pub escape_just_released: bool,
    /// Text typed in this frame.
    pub text: String,
}

/// The console: its panel's bottom edge, the input line and cursor (a
/// character index; a completion can leave it past the end of the line),
/// the history, the completion popup and the printed rows.
pub struct ConsoleState {
    pub y_pos: i32,
    pub input: String,
    pub cursor_x: usize,
    pub history: ConsoleHistory,
    pub completion: Autocompletion,
    pub rows: Vec<ConsoleEntry>,
}

impl ConsoleState {
    /// History and popup are well formed.
    pub open spec fn wf(&self) -> bool {
        &&& self.history.wf()
        &&& self.completion.wf()
    }

    /// A closed console: empty line, no history, popup closed.
    pub fn new() -> (r: Self)
        ensures
            r.wf(),
            r.y_pos == 0,
            r.input@.len() == 0,
            r.cursor_x == 0,
            r.history.command_history@.len() == 0,
            r.history.history_pos == 0,
            r.completion.open is None,
            r.rows@.len() == 0,
    {
        ConsoleState {
            y_pos: 0,
            input: String::new(),
            cursor_x: 0,
            history: ConsoleHistory::new(),
            completion: Autocompletion::new(),
            rows: Vec::new(),
        }
    }
}

/// The key action of a frame of the open console, given whether the popup
/// is open, the cursor and the length of the line: the first that applies.
pub open spec fn spec_key_action(ev: ConsoleEvent, completion_open: bool, cursor_x: int, input_len: int) -> ConsoleKeyAction {
    if ev.up_just_pressed {
        if completion_open { ConsoleKeyAction::CompletionPrev } else { ConsoleKeyAction::HistoryPrev }
    } else if ev.down_just_pressed {
        if completion_open { ConsoleKeyAction::CompletionNext } else { ConsoleKeyAction::HistoryNext }
    } else if ev.left_down && cursor_x > 0 && ev.repeat_ready {
        ConsoleKeyAction::CursorLeft
    } else if ev.right_down && cursor_x < input_len && ev.repeat_ready {
        ConsoleKeyAction::CursorRight
    } else if ev.home_down {
        ConsoleKeyAction::CursorHome
    } else if ev.end_down {
        ConsoleKeyAction::CursorEnd
    } else if ev.backspace_down && cursor_x > 0 && ev.repeat_ready {
        ConsoleKeyAction::Backspace
    } else if ev.delete_down && cursor_x < input_len && ev.repeat_ready {
        ConsoleKeyAction::Delete
    } else if ev.ctrl_down && ev.space_just_released {
        ConsoleKeyAction::OpenCompletion
    } else if (ev.space_just_released || ev.tab_just_released || (ev.return_just_released
        && !ev.ctrl_down)) && completion_open {
        ConsoleKeyAction::ChooseCompletion { close: !ev.ctrl_down, by_enter: ev.return_just_released }
    } else if ev.ctrl_down && ev.r_just_released {
        ConsoleKeyAction::SearchHistory
    } else if ev.space_just_released {
        ConsoleKeyAction::TypeSpace
    } else if ev.text@.len() > 0 && !ev.space_down {
        ConsoleKeyAction::TypeText
    } else if ev.escape_just_released && completion_open {
        ConsoleKeyAction::CloseCompletion
    } else if ev.return_just_released {
        ConsoleKeyAction::Submit { ctrl: ev.ctrl_down }
    } else {
        ConsoleKeyAction::Nothing
    }
}

/// See `spec_key_action`.
pub fn key_action(ev: &ConsoleEvent, completion_open: bool, cursor_x: usize, input_len: usize) -> (r: ConsoleKeyAction)
    ensures
        r == spec_key_action(*ev, completion_open, cursor_x as int, input_len as int),
{
    if ev.up_just_pressed {
        if completion_open { ConsoleKeyAction::CompletionPrev } else { ConsoleKeyAction::HistoryPrev }
    } else if ev.down_just_pressed {
        if completion_open { ConsoleKeyAction::CompletionNext } else { ConsoleKeyAction::HistoryNext }
    } else if ev.left_down && cursor_x > 0 && ev.repeat_ready {
        ConsoleKeyAction::CursorLeft
    } else if ev.right_down && cursor_x < input_len && ev.repeat_ready {
        ConsoleKeyAction::CursorRight
    } else if ev.home_down {
        ConsoleKeyAction::CursorHome
    } else if ev.end_down {
        ConsoleKeyAction::CursorEnd
    } else if ev.backspace_down && cursor_x > 0 && ev.repeat_ready {
        ConsoleKeyAction::Backspace
    } else if ev.delete_down && cursor_x < input_len && ev.repeat_ready {
        ConsoleKeyAction::Delete
    } else if ev.ctrl_down && ev.space_just_released {
        ConsoleKeyAction::OpenCompletion
    } else if (ev.space_just_released || ev.tab_just_released || (ev.return_just_released
        && !ev.ctrl_down)) && completion_open {
        ConsoleKeyAction::ChooseCompletion { close: !ev.ctrl_down, by_enter: ev.return_just_released }
    } else if ev.ctrl_down && ev.r_just_released {
        ConsoleKeyAction::SearchHistory
    } else if ev.space_just_released {
        ConsoleKeyAction::TypeSpace
    } else if ev.text.unicode_len() > 0 && !ev.space_down {
        ConsoleKeyAction::TypeText
    } else if ev.escape_just_released && completion_open {
        ConsoleKeyAction::CloseCompletion
    } else if ev.return_just_released {
        ConsoleKeyAction::Submit { ctrl: ev.ctrl_down }
    } else {
        ConsoleKeyAction::Nothing
    }
}

/// Where text typed at `cursor` goes in: at the cursor, or at the end of
/// the line when the cursor is past it.
pub open spec fn insert_at(s: Seq<char>, cursor: int) -> int {
    if cursor <= s.len() { cursor } else { s.len() as int }
}

/// Whether the cursor at `cursor` stands inside double quotes.
pub open spec fn spec_inside_quotes(s: Seq<char>, cursor: int) -> bool {
    quote_count(s.take(insert_at(s, cursor))) % 2 == 1
}

/// The input line and cursor after key action `a`, from line `s`, cursor
/// `cursor` and history `history` browsed to `pos`.
pub open spec fn spec_line_after(
    s: Seq<char>,
    cursor: int,
    history: Seq<String>,
    pos: int,
    ev: ConsoleEvent,
    a: ConsoleKeyAction,
) -> (Seq<char>, int) {
    match a {
        ConsoleKeyAction::HistoryPrev => {
            let l = shown_line(history, up_pos(pos, history.len() as int));
            (l, l.len() as int)
        },
        ConsoleKeyAction::HistoryNext => {
            let l = shown_line(history, down_pos(pos));
            (l, l.len() as int)
        },
        ConsoleKeyAction::CursorLeft => (s, spec_left(s, cursor, ev.ctrl_down)),
        ConsoleKeyAction::CursorRight => (s, spec_right(s, cursor, ev.ctrl_down)),
        ConsoleKeyAction::CursorHome => (s, 0),
        ConsoleKeyAction::CursorEnd => (s, s.len() as int),
        ConsoleKeyAction::Backspace => if !ev.ctrl_down && cursor > s.len() {
            (if s.len() > 0 { s.drop_last() } else { s }, cursor - 1)
        } else {
            spec_backspace(s, cursor, ev.ctrl_down)
        },
        ConsoleKeyAction::Delete => (spec_delete(s, cursor, ev.ctrl_down), cursor),
        ConsoleKeyAction::SearchHistory => (Seq::empty(), 0),
        ConsoleKeyAction::TypeSpace => if spec_space_inserted(s, cursor, spec_inside_quotes(s, cursor)) {
            let at = insert_at(s, cursor);
            (s.take(at) + seq![' '] + s.skip(at), cursor + 1)
        } else {
            (s, cursor)
        },
        ConsoleKeyAction::TypeText => {
            let at = insert_at(s, cursor);
            (s.take(at) + ev.text@ + s.skip(at), cursor + 1)
        },
        _ => (s, cursor),
    }
}

/// The history browsing position after key action `a`.
pub open spec fn spec_pos_after(pos: int, len: int, a: ConsoleKeyAction) -> int {
    match a {
        ConsoleKeyAction::HistoryPrev => up_pos(pos, len),
        ConsoleKeyAction::HistoryNext => down_pos(pos),
        _ => pos,
    }
}

/// Runs one frame of the console. The panel slides (`spec_slide`); while
/// the console is open the key action of the frame (`spec_key_action`) is
/// applied to the line and cursor (`spec_line_after`), the history position
/// (`spec_pos_after`) and the popup, and returned; a closed console does
/// nothing else and returns `Nothing`.
pub fn console_step(state: &mut ConsoleState, ev: &ConsoleEvent) -> (r: ConsoleKeyAction)
    requires
        old(state).wf(),
        ev.is_console_open && old(state).y_pos < ev.console_height ==> old(state).y_pos <= i32::MAX - 4,
        old(state).input@.len() + ev.text@.len() + 1 < usize::MAX,
        old(state).cursor_x + 1 < usize::MAX,
        ({
            let a = spec_key_action(*ev, old(state).completion.open is Some, old(state).cursor_x as int,
                old(state).input@.len() as int);
            ev.is_console_open && ev.ctrl_down && old(state).cursor_x > old(state).input@.len()
                ==> a != ConsoleKeyAction::CursorLeft && a != ConsoleKeyAction::Backspace
        }),
    ensures
        final(state).wf(),
        final(state).y_pos == spec_slide(old(state).y_pos, ev.is_console_open, ev.console_height),
        r == (if ev.is_console_open {
            spec_key_action(*ev, old(state).completion.open is Some, old(state).cursor_x as int,
                old(state).input@.len() as int)
        } else {
            ConsoleKeyAction::Nothing
        }),
        (final(state).input@, final(state).cursor_x as int) == spec_line_after(old(state).input@,
            old(state).cursor_x as int, old(state).history.command_history@,
            old(state).history.history_pos as int, *ev, r),
        final(state).history.command_history@ == old(state).history.command_history@,
        final(state).rows@ == old(state).rows@,
        final(state).history.history_pos == spec_pos_after(old(state).history.history_pos as int,
            old(state).history.command_history@.len() as int, r),
        r == ConsoleKeyAction::CompletionPrev ==> {
            &&& final(state).completion.open == old(state).completion.open
            &&& final(state).completion.full_list@ == old(state).completion.full_list@
            &&& final(state).completion.filtered_list@ == old(state).completion.filtered_list@
            &&& final(state).completion.index == (if old(state).completion.index > 0 {
                old(state).completion.index - 1
            } else {
                old(state).completion.filtered_list@.len() - 1
            })
        },
        r == ConsoleKeyAction::CompletionNext ==> {
            &&& final(state).completion.open == old(state).completion.open
            &&& final(state).completion.full_list@ == old(state).completion.full_list@
            &&& final(state).completion.filtered_list@ == old(state).completion.filtered_list@
            &&& final(state).completion.index == (if old(state).completion.index + 1
                < old(state).completion.filtered_list@.len() {
                old(state).completion.index + 1
            } else {
                0
            })
        },
        r == ConsoleKeyAction::CloseCompletion ==> final(state).completion.open is None,
        r != ConsoleKeyAction::CompletionPrev && r != ConsoleKeyAction::CompletionNext && r
            != ConsoleKeyAction::CloseCompletion ==> final(state).completion == old(state).completion,
{
    state.y_pos = slide(state.y_pos, ev.is_console_open, ev.console_height);
    if !ev.is_console_open {
        return ConsoleKeyAction::Nothing;
    }
    let n = state.input.unicode_len();
    let a = key_action(ev, state.completion.open.is_some(), state.cursor_x, n);
    match a {
        ConsoleKeyAction::CompletionPrev => {
            state.completion.select_prev();
        },
        ConsoleKeyAction::CompletionNext => {
            state.completion.select_next();
        },
        ConsoleKeyAction::HistoryPrev => {
            let line = state.history.history_up();
            state.cursor_x = line.unicode_len();
            state.input = line;
        },
        ConsoleKeyAction::HistoryNext => {
            let line = state.history.history_down();
            state.cursor_x = line.unicode_len();
            state.input = line;
        },
        ConsoleKeyAction::CursorLeft => {
            if state.cursor_x <= n {
                state.cursor_x = handle_left_cursor(state.input.as_str(), state.cursor_x, ev.ctrl_down);
            } else {
                state.cursor_x = state.cursor_x - 1;
            }
        },
        ConsoleKeyAction::CursorRight => {
            proof {
                if ev.ctrl_down {
                    lemma_forward_stop_bound(state.input@, state.cursor_x as int,
                        spec_is_whitespace(state.input@[state.cursor_x as int]), 0);
                }
            }
            state.cursor_x = handle_right_cursor(state.input.as_str(), state.cursor_x, ev.ctrl_down);
        },
        ConsoleKeyAction::CursorHome => {
            state.cursor_x = 0;
        },
        ConsoleKeyAction::CursorEnd => {
            state.cursor_x = n;
        },
        ConsoleKeyAction::Backspace => {
            if state.cursor_x <= n {
                let (line, x) = handle_backspace(state.input.as_str(), state.cursor_x, ev.ctrl_down);
                state.input = line;
                state.cursor_x = x;
            } else {
                if n > 0 {
                    let mut line = String::new();
                    push_range(&mut line, state.input.as_str(), 0, n - 1);
                    proof {
                        assert(Seq::<char>::empty() + state.input@.subrange(0, n - 1) =~= state.input@.drop_last());
                    }
                    state.input = line;
                }
                state.cursor_x = state.cursor_x - 1;
            }
        },
        ConsoleKeyAction::Delete => {
            proof {
                if ev.ctrl_down {
                    lemma_forward_stop_bound(state.input@, state.cursor_x as int,
                        spec_is_whitespace(state.input@[state.cursor_x as int]), 0);
                }
            }
            let line = handle_delete_key(state.input.as_str(), state.cursor_x, ev.ctrl_down);
            state.input = line;
        },
        ConsoleKeyAction::SearchHistory => {
            state.input = String::new();
            state.cursor_x = 0;
        },
        ConsoleKeyAction::TypeSpace => {
            let quoted = cursor_inside_quotes(state.input.as_str(), state.cursor_x);
            if space_inserted(state.input.as_str(), state.cursor_x, quoted) {
                let at = if state.cursor_x <= n { state.cursor_x } else { n };
                let (line, _) = insert_str_to_prompt(state.input.as_str(), at, " ");
                proof {
                    reveal_strlit(" ");
                }
                state.input = line;
                state.cursor_x = state.cursor_x + 1;
            }
        },
        ConsoleKeyAction::TypeText => {
            let at = if state.cursor_x <= n { state.cursor_x } else { n };
            let (line, _) = insert_str_to_prompt(state.input.as_str(), at, ev.text.as_str());
            state.input = line;
            state.cursor_x = state.cursor_x + 1;
        },
        ConsoleKeyAction::CloseCompletion => {
            state.completion.close_autocompletion();
        },
        _ => {},
    }
    a
}

} // verus!
