//! The console's command history, browsed with Up and Down, the sliding of
//! the console panel, and when a typed blank goes into the input line.
use vstd::prelude::*;
use crate::console_edit::{is_whitespace, push_range, spec_is_whitespace};

verus! {

/// The commands entered so far, oldest first, and how far back the user
/// has browsed (0: not browsing; `k`: the `k`-th most recent command).
pub struct ConsoleHistory {
    pub command_history: Vec<String>,
    pub history_pos: usize,
}

/// The browsing position after Up: one further back, but not past the
/// oldest of `len` commands.
pub open spec fn up_pos(pos: int, len: int) -> int {
    if pos < len { pos + 1 } else { pos }
}

/// The browsing position after Down: one nearer the present, or not
/// browsing from the most recent command on.
pub open spec fn down_pos(pos: int) -> int {
    if pos > 1 { pos - 1 } else { 0 }
}

/// The input line shown at browsing position `pos`: the `pos`-th most
/// recent command, or an empty line when not browsing.
pub open spec fn shown_line(history: Seq<String>, pos: int) -> Seq<char> {
    if pos == 0 { Seq::empty() } else { history[history.len() - pos]@ }
}

impl ConsoleHistory {
    /// The browsing position never goes past the oldest command.
    pub open spec fn wf(&self) -> bool {
        self.history_pos <= self.command_history@.len()
    }

    /// No command yet.
    pub fn new() -> (r: Self)
        ensures
            r.wf(),
            r.command_history@.len() == 0,
            r.history_pos == 0,
    {
        ConsoleHistory { command_history: Vec::new(), history_pos: 0 }
    }

    /// Up: one command further back, staying at the oldest; gives the input
    /// line to show, empty when there is no command at all.
    pub fn history_up(&mut self) -> (r: String)
        requires
            old(self).wf(),
        ensures
            final(self).wf(),
            final(self).command_history@ == old(self).command_history@,
            final(self).history_pos == up_pos(old(self).history_pos as int, old(self).command_history@.len() as int),
            r@ == shown_line(old(self).command_history@, final(self).history_pos as int),
    {
        let len = self.command_history.len();
        if self.history_pos < len {
            self.history_pos = self.history_pos + 1;
        }
        if self.history_pos == 0 {
            String::new()
        } else {
            let idx = len - self.history_pos;
            self.command_history[idx].clone()
        }
    }

    /// Down: one command nearer the present; from the most recent one (or
    /// when not browsing) back to an empty input line, which it gives.
    pub fn history_down(&mut self) -> (r: String)
        requires
            old(self).wf(),
        ensures
            final(self).wf(),
            final(self).command_history@ == old(self).command_history@,
            final(self).history_pos == down_pos(old(self).history_pos as int),
            r@ == shown_line(old(self).command_history@, final(self).history_pos as int),
    {
        if self.history_pos > 1 {
            self.history_pos = self.history_pos - 1;
            let idx = self.command_history.len() - self.history_pos;
            self.command_history[idx].clone()
        } else {
            self.history_pos = 0;
            String::new()
        }
    }

    /// Records an entered line, without its leading and trailing blanks,
    /// and stops browsing; gives the recorded command.
    pub fn add_command(&mut self, input: &str) -> (r: String)
        requires
            old(self).wf(),
        ensures
            final(self).wf(),
            r@ == trimmed(input@),
            final(self).command_history@ == old(self).command_history@.push(r),
            final(self).history_pos == 0,
    {
        let line = trim(input);
        self.command_history.push(line.clone());
        self.history_pos = 0;
        line
    }
}

/// Law: Down undoes Up while browsing inside the history: it comes back
/// to the position, and so to the line, it started from.
pub proof fn law_down_undoes_up(history: Seq<String>, pos: int)
    requires
        1 <= pos < history.len(),
    ensures
        down_pos(up_pos(pos, history.len() as int)) == pos,
        shown_line(history, down_pos(up_pos(pos, history.len() as int))) == shown_line(history, pos),
{
}

/// Law: Up from the present shows the most recent command; Down from it
/// gives the empty line back.
pub proof fn law_up_shows_latest(history: Seq<String>)
    requires
        history.len() > 0,
    ensures
        shown_line(history, up_pos(0, history.len() as int)) == history.last()@,
        shown_line(history, down_pos(up_pos(0, history.len() as int))) == Seq::<char>::empty(),
{
}

/// Index of the first non-blank character of `s` from `i` on, or its length.
pub open spec fn first_non_blank(s: Seq<char>, i: int) -> int
    decreases s.len() - i,
{
    if i >= s.len() || i < 0 {
        s.len() as int
    } else if !spec_is_whitespace(s[i]) {
        i
    } else {
        first_non_blank(s, i + 1)
    }
}

/// One past the last non-blank character of `s` before `j`, or 0.
pub open spec fn end_non_blank(s: Seq<char>, j: int) -> int
    decreases j,
{
    if j <= 0 || j > s.len() {
        0
    } else if !spec_is_whitespace(s[j - 1]) {
        j
    } else {
        end_non_blank(s, j - 1)
    }
}

/// `s` without its leading and trailing blanks (Unicode White_Space), as
/// `str::trim` gives it.
pub open spec fn trimmed(s: Seq<char>) -> Seq<char> {
    let a = first_non_blank(s, 0);
    let b = end_non_blank(s, s.len() as int);
    if a < b { s.subrange(a, b) } else { Seq::empty() }
}

/// `input` without its leading and trailing blanks; see `trimmed`.
pub fn trim(input: &str) -> (r: String)
    ensures
        r@ == trimmed(input@),
{
    let n = input.unicode_len();
    let mut a: usize = 0;
    while a < n && is_whitespace(input.get_char(a))
        invariant
            a <= n,
            n == input@.len(),
            first_non_blank(input@, 0) == first_non_blank(input@, a as int),
        decreases n - a,
    {
        a = a + 1;
    }
    let mut b: usize = n;
    while b > 0 && is_whitespace(input.get_char(b - 1))
        invariant
            b <= n,
            n == input@.len(),
            end_non_blank(input@, n as int) == end_non_blank(input@, b as int),
        decreases b,
    {
        b = b - 1;
    }
    let mut out = String::new();
    if a < b {
        push_range(&mut out, input, a, b);
        assert(Seq::<char>::empty() + input@.subrange(a as int, b as int) =~= input@.subrange(a as int, b as int));
    }
    out
}

/// Where the console panel's bottom edge moves in a frame: 4 pixels down
/// while it is open and not yet `height` low, 4 pixels up while it is
/// closed and not yet gone.
pub open spec fn spec_slide(y_pos: i32, is_open: bool, height: i32) -> int {
    if !is_open {
        if y_pos > 0 { y_pos - 4 } else { y_pos as int }
    } else {
        if y_pos < height { y_pos + 4 } else { y_pos as int }
    }
}

/// See `spec_slide`.
pub fn slide(y_pos: i32, is_open: bool, height: i32) -> (r: i32)
    requires
        is_open && y_pos < height ==> y_pos <= i32::MAX - 4,
    ensures
        r == spec_slide(y_pos, is_open, height),
{
    if !is_open {
        if y_pos > 0 { y_pos - 4 } else { y_pos }
    } else {
        if y_pos < height { y_pos + 4 } else { y_pos }
    }
}

/// Whether a typed blank goes into the input line: inside quotes always,
/// elsewhere only after a character that is not blank (so no two blanks
/// follow each other); a cursor past the end counts as after a character.
pub open spec fn spec_space_inserted(input: Seq<char>, cursor_x: int, inside_quotes: bool) -> bool {
    inside_quotes || (cursor_x > 0 && (cursor_x - 1 >= input.len() || !spec_is_whitespace(input[cursor_x - 1])))
}

/// See `spec_space_inserted`.
pub fn space_inserted(input: &str, cursor_x: usize, inside_quotes: bool) -> (r: bool)
    ensures
        r == spec_space_inserted(input@, cursor_x as int, inside_quotes),
{
    if inside_quotes {
        return true;
    }
    if cursor_x == 0 {
        return false;
    }
    let n = input.unicode_len();
    if cursor_x - 1 >= n {
        true
    } else {
        !is_whitespace(input.get_char(cursor_x - 1))
    }
}

/// Law: outside quotes no blank follows another: a blank typed right after
/// a blank is not inserted.
pub proof fn law_no_double_blanks(input: Seq<char>, cursor_x: int)
    requires
        0 < cursor_x <= input.len(),
        spec_is_whitespace(input[cursor_x - 1]),
    ensures
        !spec_space_inserted(input, cursor_x, false),
{
}

} // verus!
