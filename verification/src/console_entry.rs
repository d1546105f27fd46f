//! Lines of the console's history: coloured words, the echo of an entered
//! command, and the check of its argument count.
use vstd::prelude::*;
use crate::console_edit::push_range;

verus! {

/// How a word of a console line is coloured.
#[derive(Clone, Copy, Debug, PartialEq, Eq, Structural)]
pub enum ConsoleWordType {
    Normal,
    CommandName,
    Param,
    Error,
}

/// A run of text of one colour.
pub struct ConsoleWords {
    pub text: String,
    pub typ: ConsoleWordType,
}

/// A line of the console.
pub struct ConsoleEntry {
    pub words: Vec<ConsoleWords>,
}

/// Words as (text, type) pairs.
pub open spec fn words_view(ws: Seq<ConsoleWords>) -> Seq<(Seq<char>, ConsoleWordType)> {
    ws.map_values(|w: ConsoleWords| (w.text@, w.typ))
}

/// The words of a line as (text, type) pairs.
pub open spec fn entry_words(e: ConsoleEntry) -> Seq<(Seq<char>, ConsoleWordType)> {
    words_view(e.words@)
}

impl ConsoleWords {
    /// A run of `text` of type `typ`.
    pub fn new(text: &str, typ: ConsoleWordType) -> (r: ConsoleWords)
        ensures
            r.text@ == text@,
            r.typ == typ,
    {
        ConsoleWords { text: text.to_owned(), typ }
    }
}

impl ConsoleEntry {
    /// An empty line.
    pub fn new() -> (r: ConsoleEntry)
        ensures
            entry_words(r) == Seq::<(Seq<char>, ConsoleWordType)>::empty(),
    {
        let r = ConsoleEntry { words: Vec::new() };
        assert(entry_words(r) =~= Seq::<(Seq<char>, ConsoleWordType)>::empty());
        r
    }

    /// The line with `text` of type `typ` appended.
    pub fn add(self, text: &str, typ: ConsoleWordType) -> (r: ConsoleEntry)
        ensures
            entry_words(r) == entry_words(self).push((text@, typ)),
    {
        let mut words = self.words;
        let ghost before = words@;
        words.push(ConsoleWords::new(text, typ));
        let r = ConsoleEntry { words };
        assert(words_view(r.words@) =~= words_view(before).push((text@, typ)));
        r
    }
}

/// The texts joined with single blanks between them.
pub open spec fn joined(texts: Seq<Seq<char>>) -> Seq<char>
    decreases texts.len(),
{
    if texts.len() == 0 {
        Seq::empty()
    } else if texts.len() == 1 {
        texts[0]
    } else {
        joined(texts.drop_last()) + seq![' '] + texts.last()
    }
}

/// The texts of the arguments.
pub open spec fn arg_texts(args: Seq<String>) -> Seq<Seq<char>> {
    args.map_values(|a: String| a@)
}

/// The echo of an entered command: the prompt, the command name (coloured
/// as a command when it is known, as an error otherwise) when there is one,
/// then a blank and the parameters joined by blanks when there are any.
pub open spec fn spec_console_entry(args: Seq<String>, command_known: bool) -> Seq<(Seq<char>, ConsoleWordType)> {
    let name: Seq<char> = if args.len() > 0 { args[0]@ } else { Seq::empty() };
    let params: Seq<char> = if args.len() > 0 { joined(arg_texts(args).skip(1)) } else { Seq::empty() };
    let prompt = seq![(seq!['>', ' '], ConsoleWordType::Normal)];
    let with_name = if name.len() > 0 {
        prompt.push((name, if command_known { ConsoleWordType::CommandName } else { ConsoleWordType::Error }))
    } else {
        prompt
    };
    if params.len() > 0 {
        with_name.push((seq![' '], ConsoleWordType::Normal)).push((params, ConsoleWordType::Param))
    } else {
        with_name
    }
}

/// Joins `args[from..]` with blanks.
pub(crate) fn join_from(args: &Vec<String>, from: usize) -> (r: String)
    requires
        from <= args@.len(),
    ensures
        r@ == joined(arg_texts(args@).skip(from as int)),
{
    let mut out = String::new();
    let mut i: usize = from;
    proof {
        assert(arg_texts(args@).skip(from as int).take(0) =~= Seq::<Seq<char>>::empty());
    }
    while i < args.len()
        invariant
            from <= i <= args@.len(),
            out@ == joined(arg_texts(args@).skip(from as int).take(i - from)),
        decreases args@.len() - i,
    {
        let ghost ts = arg_texts(args@).skip(from as int);
        let a = args[i].as_str();
        if i > from {
            proof {
                reveal_strlit(" ");
            }
            push_range(&mut out, " ", 0, 1);
        }
        let n = a.unicode_len();
        push_range(&mut out, a, 0, n);
        proof {
            reveal_strlit(" ");
            let pre = ts.take(i - from);
            let next = ts.take(i - from + 1);
            assert(next.drop_last() =~= pre);
            assert(next.last() == a@);
            assert(a@.subrange(0, n as int) =~= a@);
            if i == from {
                assert(Seq::<char>::empty() + a@ =~= a@);
            }
        }
        i = i + 1;
    }
    proof {
        assert(arg_texts(args@).skip(from as int).take(args@.len() - from) =~= arg_texts(args@).skip(from as int));
    }
    out
}

/// The echo of an entered command whose arguments (the command name first)
/// are `args`; see `spec_console_entry`.
pub fn create_console_entry(args: &Vec<String>, command_known: bool) -> (r: ConsoleEntry)
    ensures
        entry_words(r) == spec_console_entry(args@, command_known),
{
    let ghost name: Seq<char> = if args@.len() > 0 { args@[0]@ } else { Seq::empty() };
    let ghost params: Seq<char> = if args@.len() > 0 { joined(arg_texts(args@).skip(1)) } else { Seq::empty() };
    let ghost prompt = seq![(seq!['>', ' '], ConsoleWordType::Normal)];
    let ghost typ = if command_known { ConsoleWordType::CommandName } else { ConsoleWordType::Error };
    let ghost with_name = if name.len() > 0 { prompt.push((name, typ)) } else { prompt };
    let mut entry = ConsoleEntry::new().add("> ", ConsoleWordType::Normal);
    proof {
        reveal_strlit("> ");
        assert("> "@ =~= seq!['>', ' ']);
        assert(entry_words(entry) =~= prompt);
    }
    if args.len() > 0 && args[0].as_str().unicode_len() > 0 {
        let t = if command_known { ConsoleWordType::CommandName } else { ConsoleWordType::Error };
        entry = entry.add(args[0].as_str(), t);
    }
    assert(entry_words(entry) == with_name);
    let param_str = if args.len() > 0 {
        join_from(args, 1)
    } else {
        String::new()
    };
    assert(param_str@ == params);
    if param_str.as_str().unicode_len() > 0 {
        entry = entry.add(" ", ConsoleWordType::Normal);
        proof {
            reveal_strlit(" ");
            assert(" "@ =~= seq![' ']);
        }
        entry = entry.add(param_str.as_str(), ConsoleWordType::Param);
    }
    entry
}

/// The number of arguments, from the first on, that are mandatory.
pub open spec fn mandatory_prefix(mandatory: Seq<bool>) -> nat
    decreases mandatory.len(),
{
    if mandatory.len() == 0 || !mandatory[0] {
        0
    } else {
        1 + mandatory_prefix(mandatory.skip(1))
    }
}

/// How many leading arguments of a command are mandatory (a mandatory
/// argument after an optional one does not count).
pub fn mandatory_arg_count(mandatory: &Vec<bool>) -> (r: usize)
    ensures
        r == mandatory_prefix(mandatory@),
{
    let mut i: usize = 0;
    assert(mandatory@.skip(0) =~= mandatory@);
    while i < mandatory.len() && mandatory[i]
        invariant
            i <= mandatory@.len(),
            mandatory_prefix(mandatory@) == i + mandatory_prefix(mandatory@.skip(i as int)),
        decreases mandatory@.len() - i,
    {
        proof {
            assert(mandatory@.skip(i as int).skip(1) =~= mandatory@.skip(i + 1));
        }
        i = i + 1;
    }
    i
}

/// Whether a command whose arguments are mandatory as `mandatory` says
/// accepts `provided` arguments: at least the leading mandatory ones, at
/// most all of them.
pub fn arg_count_ok(mandatory: &Vec<bool>, provided: usize) -> (r: bool)
    ensures
        r == (mandatory_prefix(mandatory@) <= provided && provided <= mandatory@.len()),
{
    let m = mandatory_arg_count(mandatory);
    !(provided < m || provided > mandatory.len())
}

} // verus!
