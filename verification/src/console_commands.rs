//! What the console does with a finished line and with completions: an
//! entered line is echoed, recorded in the history and checked against the
//! command's parameters; the completion popup is opened on a candidate list;
//! a chosen completion is written into the line. Splitting the line into
//! arguments (with their positions) and looking the command up are done by
//! the caller, which hands the results in; so is reading a parameter as a
//! floating-point number.
use vstd::prelude::*;
use crate::autocompletion::{spec_reopened, AutocompletionType};
use crate::console_args::{parse_i32, spec_parse_i32};
use crate::console_entry::{
    arg_texts, create_console_entry, entry_words, join_from, joined, mandatory_arg_count, mandatory_prefix,
    spec_console_entry, ConsoleEntry,
};
use crate::console_edit::push_range;
use crate::console_history::trimmed;
use crate::number_format::push_char;
use crate::console_step::ConsoleState;

verus! {

/// The type a command parameter must have.
#[derive(Clone, Copy, Debug, PartialEq, Eq, Structural)]
pub enum CommandParamType {
    String,
    Int,
    Float,
}

/// One parameter of a command: its name, type and whether it is mandatory.
pub struct CommandParam {
    pub name: String,
    pub typ: CommandParamType,
    pub mandatory: bool,
}

/// The verdict on an entered line.
#[derive(Clone, Copy, Debug, PartialEq, Eq, Structural)]
pub enum InputOutcome {
    /// No command has that name.
    UnknownCommand,
    /// Fewer parameters than the leading mandatory ones, or more than the
    /// command has.
    IllegalParamCount { mandatory: usize, max: usize, provided: usize },
    /// The parameter at `index` does not have its type.
    IllegalParam { index: usize },
    /// The command is to be run.
    Execute,
}

/// Which parameters are mandatory, in order.
pub open spec fn mandatory_flags(params: Seq<CommandParam>) -> Seq<bool> {
    params.map_values(|p: CommandParam| p.mandatory)
}

/// Whether parameter `i` of a command is acceptable, the line's arguments
/// being `args` (the command name first, so parameter `i` is `args[i + 1]`)
/// and `float_ok[i]` telling whether parameter `i` reads as a floating-point
/// number: a given parameter must read as its type, a missing one must be
/// optional.
pub open spec fn param_ok(p: CommandParam, i: int, args: Seq<String>, float_ok: Seq<bool>) -> bool {
    let given = i + 1 < args.len();
    match p.typ {
        CommandParamType::String => true,
        CommandParamType::Int => if given { spec_parse_i32(args[i + 1]@) is Some } else { !p.mandatory },
        CommandParamType::Float => if given { float_ok[i] } else { !p.mandatory },
    }
}

/// The first parameter from `i` on that is not acceptable.
pub open spec fn first_bad_param(params: Seq<CommandParam>, args: Seq<String>, float_ok: Seq<bool>, i: int) -> Option<int>
    decreases params.len() - i,
{
    if i < 0 || i >= params.len() {
        None
    } else if !param_ok(params[i], i, args, float_ok) {
        Some(i)
    } else {
        first_bad_param(params, args, float_ok, i + 1)
    }
}

/// The verdict on a line with arguments `args` for the command with
/// parameters `params` (`None`: no such command).
pub open spec fn spec_input_outcome(args: Seq<String>, params: Option<Seq<CommandParam>>, float_ok: Seq<bool>) -> InputOutcome {
    match params {
        None => InputOutcome::UnknownCommand,
        Some(ps) => {
            let provided = args.len() - 1;
            let m = mandatory_prefix(mandatory_flags(ps));
            if provided < m || provided > ps.len() {
                InputOutcome::IllegalParamCount { mandatory: m as usize, max: ps.len() as usize, provided: provided as usize }
            } else {
                match first_bad_param(ps, args, float_ok, 0) {
                    Some(i) => InputOutcome::IllegalParam { index: i as usize },
                    None => InputOutcome::Execute,
                }
            }
        },
    }
}

/// One argument of the line: its text and the character position where it
/// ends.
pub struct CommandElement {
    pub text: String,
    pub end_pos: usize,
}

/// The texts of the arguments.
pub open spec fn element_texts(args: Seq<CommandElement>) -> Seq<Seq<char>> {
    args.map_values(|e: CommandElement| e.text@)
}

/// The completion as it goes into the line: in double quotes when `quote`.
pub open spec fn completion_text(sel: Seq<char>, quote: bool) -> Seq<char> {
    if quote { seq!['"'] + sel + seq!['"'] } else { sel }
}

/// Where the cursor goes after completing argument `cpi` with `text`: past
/// the text and a blank, the text following the argument before it.
pub open spec fn completion_end(args: Seq<CommandElement>, cpi: int, text: Seq<char>) -> int {
    if cpi == 0 { text.len() + 1int } else { args[cpi - 1].end_pos + 2 + text.len() }
}

/// The line after completing argument `cpi` with `text`: a history entry
/// replaces the line; otherwise the argument is replaced (or added), the
/// arguments are joined by blanks, and a blank follows where the cursor
/// position lies beyond the line's length in (UTF-8) bytes.
pub open spec fn completed_line(args: Seq<CommandElement>, cpi: int, text: Seq<char>, from_history: bool) -> Seq<char> {
    if from_history {
        text
    } else {
        let texts = if args.len() < cpi + 1 {
            element_texts(args).push(text)
        } else {
            element_texts(args).update(cpi, text)
        };
        let j = joined(texts);
        if completion_end(args, cpi, text) > (vstd::utf8::encode_utf8(j).len() as usize) { j + seq![' '] } else { j }
    }
}

/// Whether a completion taken with Return runs the command right away: when
/// the popup closes and the command (with `command_param_count` parameters)
/// has none, or its last parameter was the one completed.
pub open spec fn spec_submit_after_completion(command_param_count: Option<usize>, cursor_parameter_index: usize, close: bool, by_enter: bool) -> bool {
    close && by_enter && match command_param_count {
        Some(n) => n == 0 || n <= cursor_parameter_index,
        None => false,
    }
}

/// See `spec_submit_after_completion`.
pub fn submit_after_completion(command_param_count: Option<usize>, cursor_parameter_index: usize, close: bool, by_enter: bool) -> (r: bool)
    ensures
        r == spec_submit_after_completion(command_param_count, cursor_parameter_index, close, by_enter),
{
    close && by_enter && match command_param_count {
        Some(n) => n == 0 || n <= cursor_parameter_index,
        None => false,
    }
}

/// Whether `s` holds a blank.
fn has_blank(s: &str) -> (r: bool)
    ensures
        r == s@.contains(' '),
{
    let n = s.unicode_len();
    let mut i: usize = 0;
    while i < n
        invariant
            n == s@.len(),
            i <= n,
            forall|k: int| 0 <= k < i ==> s@[k] != ' ',
        decreases n - i,
    {
        if s.get_char(i) == ' ' {
            assert(s@[i as int] == ' ');
            return true;
        }
        i = i + 1;
    }
    false
}

/// The verdict on a line with arguments `args` (the command name first)
/// for a command with parameters `params`; see `spec_input_outcome`.
pub fn input_outcome(args: &Vec<String>, params: &Vec<CommandParam>, float_ok: &Vec<bool>) -> (r: InputOutcome)
    requires
        args@.len() >= 1,
        float_ok@.len() + 1 >= args@.len(),
    ensures
        r == spec_input_outcome(args@, Some(params@), float_ok@),
{
    let mut mandatory: Vec<bool> = Vec::new();
    let mut k: usize = 0;
    while k < params.len()
        invariant
            k <= params@.len(),
            mandatory@ == mandatory_flags(params@).take(k as int),
        decreases params@.len() - k,
    {
        mandatory.push(params[k].mandatory);
        proof {
            assert(mandatory@ =~= mandatory_flags(params@).take(k + 1));
        }
        k = k + 1;
    }
    proof {
        assert(mandatory@ =~= mandatory_flags(params@));
    }
    let m = mandatory_arg_count(&mandatory);
    let provided = args.len() - 1;
    if provided < m || provided > params.len() {
        return InputOutcome::IllegalParamCount { mandatory: m, max: params.len(), provided };
    }
    let mut i: usize = 0;
    while i < params.len()
        invariant
            i <= params@.len(),
            float_ok@.len() + 1 >= args@.len(),
            m == mandatory_prefix(mandatory_flags(params@)),
            provided == args@.len() - 1,
            !(provided < m || provided > params@.len()),
            first_bad_param(params@, args@, float_ok@, 0) == first_bad_param(params@, args@, float_ok@, i as int),
        decreases params@.len() - i,
    {
        let p = &params[i];
        let given = i + 1 < args.len();
        let ok = match p.typ {
            CommandParamType::String => true,
            CommandParamType::Int => if given {
                parse_i32(args[i + 1].as_str()).is_some()
            } else {
                !p.mandatory
            },
            CommandParamType::Float => if given { float_ok[i] } else { !p.mandatory },
        };
        if !ok {
            return InputOutcome::IllegalParam { index: i };
        }
        i = i + 1;
    }
    InputOutcome::Execute
}

impl ConsoleState {
    /// Enters the line: its trimmed text goes into the history (browsing
    /// stops), the echo of `args` goes into the rows, the line is cleared
    /// unless `keep_input_prompt`, and the verdict of `spec_input_outcome`
    /// is returned. `args` are the arguments of the trimmed line (the
    /// command name first), `params` the parameters of the command of that
    /// name, if there is one.
    pub fn input_added(
        &mut self,
        args: &Vec<String>,
        params: Option<&Vec<CommandParam>>,
        float_ok: &Vec<bool>,
        keep_input_prompt: bool,
    ) -> (r: InputOutcome)
        requires
            old(self).wf(),
            params is Some ==> args@.len() >= 1,
            float_ok@.len() + 1 >= args@.len(),
        ensures
            final(self).wf(),
            final(self).history.command_history@.len() == old(self).history.command_history@.len() + 1,
            final(self).history.command_history@.drop_last() == old(self).history.command_history@,
            final(self).history.command_history@.last()@ == trimmed(old(self).input@),
            final(self).history.history_pos == 0,
            final(self).rows@.len() == old(self).rows@.len() + 1,
            final(self).rows@.drop_last() == old(self).rows@,
            entry_words(final(self).rows@.last()) == spec_console_entry(args@, params is Some),
            keep_input_prompt ==> final(self).input@ == old(self).input@ && final(self).cursor_x == old(self).cursor_x,
            !keep_input_prompt ==> final(self).input@.len() == 0 && final(self).cursor_x == 0,
            final(self).completion == old(self).completion,
            final(self).y_pos == old(self).y_pos,
            r == spec_input_outcome(
                args@,
                match params {
                    Some(p) => Some(p@),
                    None => None,
                },
                float_ok@,
            ),
    {
        let outcome = match params {
            Some(ps) => input_outcome(args, ps, float_ok),
            None => InputOutcome::UnknownCommand,
        };
        let _line = self.history.add_command(self.input.as_str());
        let entry = create_console_entry(args, params.is_some());
        let ghost old_rows = self.rows@;
        self.rows.push(entry);
        proof {
            assert(self.rows@.drop_last() =~= old_rows);
        }
        if !keep_input_prompt {
            self.input = String::new();
            self.cursor_x = 0;
        }
        outcome
    }

    /// Opens the completion popup of kind `typ` narrowed to `current_word`
    /// (see `Autocompletion::reopen`): a history search offers the commands
    /// entered so far, the other kinds the candidates `list` where the
    /// caller has some (the command names, or a parameter's values).
    pub fn open_autocompletion(&mut self, typ: AutocompletionType, list: Option<Vec<String>>, current_word: &str)
        requires
            old(self).wf(),
        ensures
            final(self).wf(),
            spec_reopened(
                old(self).completion,
                final(self).completion,
                typ,
                if typ == AutocompletionType::CommandHistory {
                    Some(old(self).history.command_history@)
                } else {
                    match list {
                        Some(l) => Some(l@),
                        None => None,
                    }
                },
                current_word@,
            ),
            final(self).input@ == old(self).input@,
            final(self).cursor_x == old(self).cursor_x,
            final(self).history.command_history@ == old(self).history.command_history@,
            final(self).history.history_pos == old(self).history.history_pos,
            final(self).rows@ == old(self).rows@,
            final(self).y_pos == old(self).y_pos,
    {
        let candidates = if typ == AutocompletionType::CommandHistory {
            let h = self.history.command_history.clone();
            assert(h@ =~= self.history.command_history@);
            Some(h)
        } else {
            list
        };
        self.completion.reopen(typ, candidates, current_word);
    }

    /// Writes the highlighted completion into the line (see
    /// `completed_line`), in double quotes where a parameter value holds a
    /// blank. `args` are the arguments of the line and `cursor_parameter_index`
    /// the argument the cursor is in. With `close` the cursor goes to
    /// `completion_end` (at most the end of the line) and the popup closes;
    /// otherwise the cursor and the popup stay.
    pub fn choose_completion(&mut self, args: &Vec<CommandElement>, cursor_parameter_index: usize, close: bool)
        requires
            old(self).wf(),
            old(self).completion.open is Some,
            cursor_parameter_index > 0 ==> cursor_parameter_index - 1 < args@.len(),
            cursor_parameter_index < usize::MAX,
            old(self).completion.filtered_list@[old(self).completion.index as int]@.len() + 4 <= usize::MAX,
            cursor_parameter_index > 0 ==> args@[cursor_parameter_index - 1].end_pos
                + old(self).completion.filtered_list@[old(self).completion.index as int]@.len() + 4 <= usize::MAX,
        ensures
            final(self).wf(),
            ({
                let c = old(self).completion;
                let sel = c.filtered_list@[c.index as int]@;
                let quote = c.open == Some(AutocompletionType::Param) && sel.contains(' ');
                let text = completion_text(sel, quote);
                let line = completed_line(args@, cursor_parameter_index as int, text,
                    c.open == Some(AutocompletionType::CommandHistory));
                let end = completion_end(args@, cursor_parameter_index as int, text);
                &&& final(self).input@ == line
                &&& close ==> final(self).cursor_x == (if end <= line.len() { end } else { line.len() as int })
                    && final(self).completion.open is None
                &&& !close ==> final(self).cursor_x == old(self).cursor_x && final(self).completion == old(self).completion
            }),
            final(self).history.command_history@ == old(self).history.command_history@,
            final(self).history.history_pos == old(self).history.history_pos,
            final(self).rows@ == old(self).rows@,
            final(self).y_pos == old(self).y_pos,
    {
        let selected = &self.completion.filtered_list[self.completion.index];
        let is_param = self.completion.open == Some(AutocompletionType::Param);
        let quote = is_param && has_blank(selected.as_str());
        let mut text = String::new();
        let sn = selected.as_str().unicode_len();
        if quote {
            push_char(&mut text, '"');
            push_range(&mut text, selected.as_str(), 0, sn);
            push_char(&mut text, '"');
        } else {
            push_range(&mut text, selected.as_str(), 0, sn);
        }
        proof {
            assert(selected@.subrange(0, sn as int) =~= selected@);
            assert(text@ =~= completion_text(selected@, quote));
        }
        let ghost text_view_all = text@;
        let tlen = text.as_str().unicode_len();
        let end_pos = if cursor_parameter_index == 0 {
            tlen + 1
        } else {
            args[cursor_parameter_index - 1].end_pos + 2 + tlen
        };
        let new_input = if self.completion.open == Some(AutocompletionType::CommandHistory) {
            text
        } else {
            let mut texts: Vec<String> = Vec::new();
            let mut k: usize = 0;
            while k < args.len()
                invariant
                    k <= args@.len(),
                    texts@.len() == k,
                    forall|i: int| 0 <= i < k ==> #[trigger] texts@[i]@ == args@[i].text@,
                decreases args@.len() - k,
            {
                let t = args[k].text.clone();
                texts.push(t);
                k = k + 1;
            }
            let ghost text_view = text@;
            let ghost base = element_texts(args@);
            if args.len() < cursor_parameter_index + 1 {
                texts.push(text);
                proof {
                    assert forall|i: int| 0 <= i < texts@.len() implies #[trigger] arg_texts(texts@)[i] == base.push(text_view)[i] by {
                        if i < args@.len() {
                            assert(texts@[i]@ == args@[i].text@);
                        }
                    }
                    assert(arg_texts(texts@) =~= base.push(text_view));
                }
            } else {
                texts.set(cursor_parameter_index, text);
                proof {
                    assert forall|i: int| 0 <= i < texts@.len() implies #[trigger] arg_texts(texts@)[i] == base.update(cursor_parameter_index as int, text_view)[i] by {
                        if i != cursor_parameter_index {
                            assert(texts@[i]@ == args@[i].text@);
                        }
                    }
                    assert(arg_texts(texts@) =~= base.update(cursor_parameter_index as int, text_view));
                }
            }
            let ghost tseq = if args@.len() < cursor_parameter_index + 1 {
                base.push(text_view)
            } else {
                base.update(cursor_parameter_index as int, text_view)
            };
            assert(arg_texts(texts@) == tseq);
            let mut joined_line = join_from(&texts, 0);
            proof {
                assert(arg_texts(texts@).skip(0) =~= arg_texts(texts@));
            }
            let ghost j = joined_line@;
            assert(j == joined(tseq));
            let blen = joined_line.as_str().len();
            assert(blen == (vstd::utf8::encode_utf8(j).len() as usize));
            if end_pos > blen {
                push_char(&mut joined_line, ' ');
            }
            assert(joined_line@ == (if end_pos > (vstd::utf8::encode_utf8(j).len() as usize) { j + seq![' '] } else { j }));
            joined_line
        };
        proof {
            let c = old(self).completion;
            let sel = c.filtered_list@[c.index as int]@;
            assert(sel == selected@);
            let q = c.open == Some(AutocompletionType::Param) && sel.contains(' ');
            assert(q == quote);
            assert(text_view_all == completion_text(sel, q));
            assert(end_pos == completion_end(args@, cursor_parameter_index as int, text_view_all));
            assert(new_input@ == completed_line(args@, cursor_parameter_index as int, text_view_all,
                c.open == Some(AutocompletionType::CommandHistory)));
        }
        if close {
            let n = new_input.as_str().unicode_len();
            self.cursor_x = if end_pos <= n { end_pos } else { n };
            self.input = new_input;
            self.completion.close_autocompletion();
        } else {
            self.input = new_input;
        }
    }
}

} // verus!
