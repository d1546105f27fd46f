//! Editing of the console's input line: deleting and moving by character,
//! or by word when Ctrl is held, and inserting text at the cursor. The
//! cursor is a character index into the line.
use vstd::prelude::*;
use crate::number_format::push_char;

verus! {

/// Whether `c` has the Unicode White_Space property.
pub open spec fn spec_is_whitespace(c: char) -> bool {
    let u = c as u32;
    (0x09 <= u && u <= 0x0D) || u == 0x20 || u == 0x85 || u == 0xA0 || u == 0x1680 || (0x2000 <= u
        && u <= 0x200A) || u == 0x2028 || u == 0x2029 || u == 0x202F || u == 0x205F || u == 0x3000
}

/// Whether `c` has the Unicode White_Space property (what
/// `char::is_whitespace` answers); see `spec_is_whitespace`.
pub(crate) fn is_whitespace(c: char) -> (r: bool)
    ensures
        r == spec_is_whitespace(c),
{
    let u = c as u32;
    (0x09 <= u && u <= 0x0D) || u == 0x20 || u == 0x85 || u == 0xA0 || u == 0x1680 || (0x2000 <= u
        && u <= 0x200A) || u == 0x2028 || u == 0x2029 || u == 0x202F || u == 0x205F || u == 0x3000
}

/// Whether `c` ends the word being jumped over: a non-blank character when
/// the jump starts on a blank, a blank otherwise.
pub open spec fn word_stop(c: char, start_is_space: bool) -> bool {
    if start_is_space { !spec_is_whitespace(c) } else { spec_is_whitespace(c) }
}

/// Distance `ix`, counted from `ix0` on, from `cursor - 1` back to the
/// first character that ends the word, or `None` when there is none before
/// the cursor.
pub open spec fn back_stop(s: Seq<char>, cursor: int, start_is_space: bool, ix: int) -> Option<int>
    decreases cursor - ix,
{
    if ix >= cursor || ix < 0 {
        None
    } else if word_stop(s[cursor - 1 - ix], start_is_space) {
        Some(ix)
    } else {
        back_stop(s, cursor, start_is_space, ix + 1)
    }
}

/// Distance `ix`, counted from `ix0` on, from `cursor` forward to the first
/// character that ends the word, or `None` when there is none.
pub open spec fn forward_stop(s: Seq<char>, cursor: int, start_is_space: bool, ix: int) -> Option<int>
    decreases s.len() - cursor - ix,
{
    if cursor + ix >= s.len() || ix < 0 {
        None
    } else if word_stop(s[cursor + ix], start_is_space) {
        Some(ix)
    } else {
        forward_stop(s, cursor, start_is_space, ix + 1)
    }
}

/// The line and cursor after Backspace at `cursor`. With Ctrl: the word
/// (or run of blanks) before the cursor is removed, or the whole line when
/// nothing before the cursor ends it. Without: the character before the
/// cursor is removed (the last one when the cursor is at the end).
pub open spec fn spec_backspace(s: Seq<char>, cursor: int, ctrl: bool) -> (Seq<char>, int) {
    if ctrl {
        match back_stop(s, cursor, spec_is_whitespace(s[cursor - 1]), 0) {
            Some(ix) => (s.take(cursor - ix) + s.skip(cursor), cursor - ix),
            None => (Seq::empty(), 0),
        }
    } else if cursor >= s.len() {
        (s.drop_last(), cursor - 1)
    } else {
        (s.remove(cursor - 1), cursor - 1)
    }
}

/// The line after Delete at `cursor`. With Ctrl: the word (or run of
/// blanks) from the cursor is removed, or everything from the cursor when
/// nothing ends it. Without: the character at the cursor is removed (the
/// last one when the cursor is on the last character or past it).
pub open spec fn spec_delete(s: Seq<char>, cursor: int, ctrl: bool) -> Seq<char> {
    if ctrl {
        match forward_stop(s, cursor, spec_is_whitespace(s[cursor]), 0) {
            Some(ix) => s.take(cursor) + s.skip(cursor + ix),
            None => s.take(cursor),
        }
    } else if cursor >= s.len() - 1 {
        s.drop_last()
    } else {
        s.remove(cursor)
    }
}

/// The cursor after Right at `cursor`: past the word (or run of blanks) with
/// Ctrl, to the end when nothing ends it; one character on otherwise.
pub open spec fn spec_right(s: Seq<char>, cursor: int, ctrl: bool) -> int {
    if ctrl {
        match forward_stop(s, cursor, spec_is_whitespace(s[cursor]), 0) {
            Some(ix) => cursor + ix,
            None => s.len() as int,
        }
    } else if cursor + 1 < s.len() {
        cursor + 1
    } else {
        s.len() as int
    }
}

/// The cursor after Left at `cursor`: back over the word (or run of blanks)
/// with Ctrl, to the start when nothing ends it; one character back
/// otherwise.
pub open spec fn spec_left(s: Seq<char>, cursor: int, ctrl: bool) -> int {
    if ctrl {
        match back_stop(s, cursor, spec_is_whitespace(s[cursor - 1]), 0) {
            Some(ix) => cursor - ix,
            None => 0,
        }
    } else {
        cursor - 1
    }
}

/// Number of double quotes in `s`.
pub open spec fn quote_count(s: Seq<char>) -> nat
    decreases s.len(),
{
    if s.len() == 0 {
        0
    } else {
        quote_count(s.drop_last()) + if s.last() == '"' { 1nat } else { 0nat }
    }
}

/// Appends the characters of `text` in `[from, to)` to `dst`.
pub(crate) fn push_range(dst: &mut String, text: &str, from: usize, to: usize)
    requires
        from <= to <= text@.len(),
    ensures
        final(dst)@ == old(dst)@ + text@.subrange(from as int, to as int),
{
    let mut i = from;
    while i < to
        invariant
            from <= i <= to,
            to <= text@.len(),
            dst@ == old(dst)@ + text@.subrange(from as int, i as int),
        decreases to - i,
    {
        let c = text.get_char(i);
        push_char(dst, c);
        proof {
            assert(text@.subrange(from as int, i + 1) =~= text@.subrange(from as int, i as int).push(c));
        }
        i = i + 1;
    }
}

/// Distance back from the cursor to the first character that ends the word.
fn find_back_stop(text: &str, cursor: usize, start_is_space: bool) -> (r: Option<usize>)
    requires
        cursor <= text@.len(),
    ensures
        r is Some <==> back_stop(text@, cursor as int, start_is_space, 0) is Some,
        r matches Some(ix) ==> back_stop(text@, cursor as int, start_is_space, 0) == Some(ix as int) && ix < cursor,
{
    let mut ix: usize = 0;
    while ix < cursor
        invariant
            ix <= cursor <= text@.len(),
            back_stop(text@, cursor as int, start_is_space, 0) == back_stop(text@, cursor as int, start_is_space, ix as int),
        decreases cursor - ix,
    {
        let c = text.get_char(cursor - 1 - ix);
        let ws = is_whitespace(c);
        let stop = if start_is_space { !ws } else { ws };
        if stop {
            return Some(ix);
        }
        ix = ix + 1;
    }
    None
}

/// Distance forward from the cursor to the first character that ends the word.
fn find_forward_stop(text: &str, cursor: usize, start_is_space: bool) -> (r: Option<usize>)
    requires
        cursor <= text@.len(),
    ensures
        r is Some <==> forward_stop(text@, cursor as int, start_is_space, 0) is Some,
        r matches Some(ix) ==> forward_stop(text@, cursor as int, start_is_space, 0) == Some(ix as int) && cursor + ix
            < text@.len(),
{
    let n = text.unicode_len();
    let mut ix: usize = 0;
    while cursor + ix < n
        invariant
            n == text@.len(),
            cursor <= n,
            cursor + ix <= n,
            forward_stop(text@, cursor as int, start_is_space, 0) == forward_stop(text@, cursor as int, start_is_space, ix as int),
        decreases n - cursor - ix,
    {
        let c = text.get_char(cursor + ix);
        let ws = is_whitespace(c);
        let stop = if start_is_space { !ws } else { ws };
        if stop {
            return Some(ix);
        }
        ix = ix + 1;
    }
    None
}

/// Backspace at `cursor` (after at least one character); see `spec_backspace`.
pub fn handle_backspace(input: &str, cursor_x: usize, ctrl: bool) -> (r: (String, usize))
    requires
        0 < cursor_x <= input@.len(),
    ensures
        r.0@ == spec_backspace(input@, cursor_x as int, ctrl).0,
        r.1 == spec_backspace(input@, cursor_x as int, ctrl).1,
{
    let n = input.unicode_len();
    let ghost s = input@;
    if ctrl {
        let prev_char_is_space = is_whitespace(input.get_char(cursor_x - 1));
        match find_back_stop(input, cursor_x, prev_char_is_space) {
            Some(ix) => {
                let mut out = String::new();
                push_range(&mut out, input, 0, cursor_x - ix);
                push_range(&mut out, input, cursor_x, n);
                proof {
                    assert(s.subrange(0, cursor_x - ix) =~= s.take(cursor_x - ix));
                    assert(s.subrange(cursor_x as int, n as int) =~= s.skip(cursor_x as int));
                    assert(Seq::<char>::empty() + s.take(cursor_x - ix) =~= s.take(cursor_x - ix));
                }
                (out, cursor_x - ix)
            },
            None => (String::new(), 0),
        }
    } else {
        let mut out = String::new();
        if cursor_x >= n {
            push_range(&mut out, input, 0, n - 1);
            proof {
                assert(Seq::<char>::empty() + s.subrange(0, n - 1) =~= s.drop_last());
            }
        } else {
            push_range(&mut out, input, 0, cursor_x - 1);
            push_range(&mut out, input, cursor_x, n);
            proof {
                assert(Seq::<char>::empty() + s.subrange(0, cursor_x - 1) + s.subrange(cursor_x as int, n as int)
                    =~= s.remove(cursor_x - 1));
            }
        }
        (out, cursor_x - 1)
    }
}

/// Delete at `cursor` (before the end); see `spec_delete`.
pub fn handle_delete_key(input: &str, cursor_x: usize, ctrl: bool) -> (r: String)
    requires
        cursor_x < input@.len(),
    ensures
        r@ == spec_delete(input@, cursor_x as int, ctrl),
{
    let n = input.unicode_len();
    let ghost s = input@;
    let mut out = String::new();
    if ctrl {
        let next_char_is_space = is_whitespace(input.get_char(cursor_x));
        match find_forward_stop(input, cursor_x, next_char_is_space) {
            Some(ix) => {
                push_range(&mut out, input, 0, cursor_x);
                push_range(&mut out, input, cursor_x + ix, n);
                proof {
                    assert(Seq::<char>::empty() + s.subrange(0, cursor_x as int) + s.subrange(cursor_x + ix, n as int)
                        =~= s.take(cursor_x as int) + s.skip(cursor_x + ix));
                }
            },
            None => {
                push_range(&mut out, input, 0, cursor_x);
                proof {
                    assert(Seq::<char>::empty() + s.subrange(0, cursor_x as int) =~= s.take(cursor_x as int));
                }
            },
        }
    } else {
        if cursor_x >= n - 1 {
            push_range(&mut out, input, 0, n - 1);
            proof {
                assert(Seq::<char>::empty() + s.subrange(0, n - 1) =~= s.drop_last());
            }
        } else {
            push_range(&mut out, input, 0, cursor_x);
            push_range(&mut out, input, cursor_x + 1, n);
            proof {
                assert(Seq::<char>::empty() + s.subrange(0, cursor_x as int) + s.subrange(cursor_x + 1, n as int)
                    =~= s.remove(cursor_x as int));
            }
        }
    }
    out
}

/// Right at `cursor` (before the end); see `spec_right`.
pub fn handle_right_cursor(input: &str, cursor_x: usize, ctrl: bool) -> (r: usize)
    requires
        cursor_x < input@.len(),
    ensures
        r == spec_right(input@, cursor_x as int, ctrl),
{
    let n = input.unicode_len();
    if ctrl {
        let next_char_is_space = is_whitespace(input.get_char(cursor_x));
        match find_forward_stop(input, cursor_x, next_char_is_space) {
            Some(ix) => cursor_x + ix,
            None => n,
        }
    } else if cursor_x + 1 < n {
        cursor_x + 1
    } else {
        n
    }
}

/// Left at `cursor` (after at least one character); see `spec_left`.
pub fn handle_left_cursor(input: &str, cursor_x: usize, ctrl: bool) -> (r: usize)
    requires
        0 < cursor_x <= input@.len(),
    ensures
        r == spec_left(input@, cursor_x as int, ctrl),
{
    if ctrl {
        let prev_char_is_space = is_whitespace(input.get_char(cursor_x - 1));
        match find_back_stop(input, cursor_x, prev_char_is_space) {
            Some(ix) => cursor_x - ix,
            None => 0,
        }
    } else {
        cursor_x - 1
    }
}

/// Inserts `text` at the cursor; the cursor moves one character on.
pub fn insert_str_to_prompt(input: &str, cursor_x: usize, text: &str) -> (r: (String, usize))
    requires
        cursor_x <= input@.len(),
        cursor_x < usize::MAX,
    ensures
        r.0@ == input@.take(cursor_x as int) + text@ + input@.skip(cursor_x as int),
        r.1 == cursor_x + 1,
{
    let n = input.unicode_len();
    let m = text.unicode_len();
    let mut out = String::new();
    push_range(&mut out, input, 0, cursor_x);
    push_range(&mut out, text, 0, m);
    push_range(&mut out, input, cursor_x, n);
    proof {
        assert(Seq::<char>::empty() + input@.subrange(0, cursor_x as int) + text@.subrange(0, m as int)
            + input@.subrange(cursor_x as int, n as int) =~= input@.take(cursor_x as int) + text@ + input@.skip(
            cursor_x as int,
        ));
    }
    (out, cursor_x + 1)
}

/// Whether the cursor stands inside double quotes: an odd number of them
/// precede it.
pub fn cursor_inside_quotes(input: &str, cursor_x: usize) -> (r: bool)
    ensures
        r == (quote_count(input@.take(if cursor_x <= input@.len() { cursor_x as int } else { input@.len() as int })) % 2 == 1),
{
    let n = input.unicode_len();
    let end = if cursor_x <= n { cursor_x } else { n };
    let mut inside = false;
    let mut i: usize = 0;
    while i < end
        invariant
            i <= end <= n,
            n == input@.len(),
            inside == (quote_count(input@.take(i as int)) % 2 == 1),
        decreases end - i,
    {
        let ch = input.get_char(i);
        proof {
            assert(input@.take(i + 1).drop_last() =~= input@.take(i as int));
        }
        if ch == '"' && inside {
            inside = false;
        } else if ch == '"' && !inside {
            inside = true;
        }
        i = i + 1;
    }
    inside
}

/// Typing a character and then deleting it with Backspace gives the line
/// and cursor back.
pub proof fn law_backspace_undoes_insert(s: Seq<char>, cursor: int, c: char)
    requires
        0 <= cursor <= s.len(),
    ensures
        ({
            let typed = s.take(cursor) + seq![c] + s.skip(cursor);
            spec_backspace(typed, cursor + 1, false) == (s, cursor)
        }),
{
    let typed = s.take(cursor) + seq![c] + s.skip(cursor);
    if cursor + 1 >= typed.len() {
        assert(typed.drop_last() =~= s);
    } else {
        assert(typed.remove(cursor) =~= s);
    }
}

/// Word jumps stay within the line: Ctrl+Left lands at or before the cursor
/// and Ctrl+Right at or after it, both inside the line.
pub proof fn law_word_jumps_stay_in_line(s: Seq<char>, cursor: int)
    requires
        0 < cursor < s.len(),
    ensures
        0 <= spec_left(s, cursor, true) <= cursor,
        cursor <= spec_right(s, cursor, true) <= s.len(),
{
    lemma_back_stop_bound(s, cursor, spec_is_whitespace(s[cursor - 1]), 0);
    lemma_forward_stop_bound(s, cursor, spec_is_whitespace(s[cursor]), 0);
}

pub(crate) proof fn lemma_back_stop_bound(s: Seq<char>, cursor: int, f: bool, ix: int)
    ensures
        back_stop(s, cursor, f, ix) matches Some(k) ==> ix <= k < cursor,
    decreases cursor - ix,
{
    if ix < cursor && ix >= 0 && !word_stop(s[cursor - 1 - ix], f) {
        lemma_back_stop_bound(s, cursor, f, ix + 1);
    }
}

pub(crate) proof fn lemma_forward_stop_bound(s: Seq<char>, cursor: int, f: bool, ix: int)
    ensures
        forward_stop(s, cursor, f, ix) matches Some(k) ==> ix <= k && cursor + k < s.len(),
    decreases s.len() - cursor - ix,
{
    if cursor + ix < s.len() && ix >= 0 && !word_stop(s[cursor + ix], f) {
        lemma_forward_stop_bound(s, cursor, f, ix + 1);
    }
}

} // verus!
