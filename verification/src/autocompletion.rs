//! The console's completion list: the candidates that fuzzily match the word
//! under the cursor, best match first.
use vstd::prelude::*;
use crate::console_edit::push_range;

verus! {

/// The score that `sublime_fuzzy::best_match` gives `target` for `query`,
/// or `None` when `target` holds no match of the whole of `query`.
pub uninterp spec fn fuzzy_score(query: Seq<char>, target: Seq<char>) -> Option<isize>;

/// `sublime_fuzzy::best_match(query, target)`, taken to the score of the
/// match. Its result depends on the two strings alone; its documentation
/// promises `None` when either of them is empty.
#[verifier::external_body]
fn best_match_score(query: &str, target: &str) -> (r: Option<isize>)
    ensures
        r == fuzzy_score(query@, target@),
        query@.len() == 0 ==> r is None,
        target@.len() == 0 ==> r is None,
{
    sublime_fuzzy::best_match(query, target).map(|m| m.score())
}

/// The first `n` candidates that matched, each with its score, in list order.
pub open spec fn matched(names: Seq<String>, scores: Seq<Option<isize>>, n: nat) -> Seq<(isize, String)>
    decreases n,
{
    if n == 0 {
        Seq::empty()
    } else {
        let before = matched(names, scores, (n - 1) as nat);
        match scores[n - 1] {
            Some(score) => before.push((score, names[n - 1])),
            None => before,
        }
    }
}

/// Where an entry scored `score` goes into `ranked`: behind the last entry
/// that scored at least as much.
pub open spec fn insert_pos(ranked: Seq<(isize, String)>, score: isize) -> nat
    decreases ranked.len(),
{
    if ranked.len() == 0 {
        0
    } else if ranked.last().0 >= score {
        ranked.len()
    } else {
        insert_pos(ranked.drop_last(), score)
    }
}

/// `entries` ordered by score, highest first; entries of equal score keep
/// their order.
pub open spec fn rank(entries: Seq<(isize, String)>) -> Seq<(isize, String)>
    decreases entries.len(),
{
    if entries.len() == 0 {
        Seq::empty()
    } else {
        let before = rank(entries.drop_last());
        before.insert(insert_pos(before, entries.last().0) as int, entries.last())
    }
}

/// The scores of all candidates against `word`.
pub open spec fn scores_for(word: Seq<char>, names: Seq<String>) -> Seq<Option<isize>> {
    names.map_values(|t: String| fuzzy_score(word, t@))
}

/// The names of the matched candidates, best first.
pub open spec fn ranked_names(names: Seq<String>, scores: Seq<Option<isize>>) -> Seq<String> {
    rank(matched(names, scores, names.len())).map_values(|e: (isize, String)| e.1)
}

/// The completion list for `word`: every candidate when the word is empty,
/// else the candidates that match it, best first.
pub open spec fn spec_filtered(names: Seq<String>, word: Seq<char>) -> Seq<String> {
    if word.len() == 0 {
        names
    } else {
        ranked_names(names, scores_for(word, names))
    }
}

/// Whether the entries are ordered by score, highest first.
pub open spec fn ranked_desc(s: Seq<(isize, String)>) -> bool {
    forall|i: int, j: int| 0 <= i < j < s.len() ==> s[i].0 >= s[j].0
}

/// The candidates that matched (`scores[i]` is `Some`), ordered by score,
/// highest first; of equal scores the earlier candidate comes first.
pub fn rank_matches(names: &Vec<String>, scores: &Vec<Option<isize>>) -> (r: Vec<String>)
    requires
        scores.len() == names.len(),
    ensures
        r@ == ranked_names(names@, scores@),
{
    let mut ranked: Vec<(isize, String)> = Vec::new();
    let mut i: usize = 0;
    while i < names.len()
        invariant
            scores.len() == names.len(),
            i <= names.len(),
            ranked@ == rank(matched(names@, scores@, i as nat)),
        decreases names.len() - i,
    {
        match scores[i] {
            Some(score) => {
                let mut pos: usize = ranked.len();
                assert(ranked@.take(pos as int) =~= ranked@);
                while pos > 0 && ranked[pos - 1].0 < score
                    invariant
                        pos <= ranked.len(),
                        insert_pos(ranked@.take(pos as int), score) == insert_pos(ranked@, score),
                    decreases pos,
                {
                    assert(ranked@.take(pos as int).drop_last() =~= ranked@.take(pos - 1));
                    pos = pos - 1;
                }
                proof {
                    let m = matched(names@, scores@, (i + 1) as nat);
                    assert(m.drop_last() =~= matched(names@, scores@, i as nat));
                }
                ranked.insert(pos, (score, names[i].clone()));
            },
            None => {},
        }
        i = i + 1;
    }
    let mut out: Vec<String> = Vec::new();
    let mut k: usize = 0;
    while k < ranked.len()
        invariant
            k <= ranked.len(),
            out@ =~= ranked@.take(k as int).map_values(|e: (isize, String)| e.1),
        decreases ranked.len() - k,
    {
        out.push(ranked[k].1.clone());
        k = k + 1;
    }
    assert(ranked@.take(ranked@.len() as int) =~= ranked@);
    out
}

/// The completion list for `word` drawn from `full`: a copy of `full` when
/// the word is empty, else the candidates that fuzzily match the word, best
/// match first.
pub fn filtered_list(full: &Vec<String>, word: &str) -> (r: Vec<String>)
    ensures
        r@ == spec_filtered(full@, word@),
{
    if word.is_empty() {
        let r = full.clone();
        assert(r@ =~= full@);
        r
    } else {
        let mut scores: Vec<Option<isize>> = Vec::new();
        let mut i: usize = 0;
        while i < full.len()
            invariant
                i <= full.len(),
                scores@ =~= scores_for(word@, full@).take(i as int),
            decreases full.len() - i,
        {
            let sc = best_match_score(word, full[i].as_str());
            scores.push(sc);
            i = i + 1;
        }
        assert(scores@ =~= scores_for(word@, full@));
        rank_matches(full, &scores)
    }
}

/// The part of the argument under the cursor that lies before it: its first
/// `cursor_x - start` characters, or its first `cursor_x` when the argument
/// starts after the cursor.
pub open spec fn spec_word_before_cursor(start: int, text: Seq<char>, cursor_x: int) -> Seq<char> {
    let n = if start > cursor_x { cursor_x } else { cursor_x - start };
    if n < text.len() { text.take(n) } else { text }
}

/// The word that filters the completion list: the characters of the
/// argument at `start` (holding `text`) up to the cursor.
pub fn word_before_cursor(start: usize, text: &str, cursor_x: usize) -> (r: String)
    ensures
        r@ == spec_word_before_cursor(start as int, text@, cursor_x as int),
{
    let n: usize = if start > cursor_x { cursor_x } else { cursor_x - start };
    let len: usize = text.unicode_len();
    let to: usize = if n < len { n } else { len };
    let mut r = String::new();
    push_range(&mut r, text, 0, to);
    assert(text@.subrange(0, to as int) =~= spec_word_before_cursor(start as int, text@, cursor_x as int));
    r
}

/// Which list the completion offers.
#[derive(PartialEq, Eq, Structural, Clone, Copy, Debug)]
pub enum AutocompletionType {
    CommandName,
    Param,
    CommandHistory,
}

/// The completion popup of the console: whether it is open and for what,
/// the full candidate list, the list narrowed to the word under the cursor,
/// and the highlighted entry of the narrowed list.
pub struct Autocompletion {
    pub open: Option<AutocompletionType>,
    pub index: usize,
    pub full_list: Vec<String>,
    pub filtered_list: Vec<String>,
}

/// What `reopen(typ, list, word)` makes of the popup `a` (`list` taken by
/// its view): see there.
pub open spec fn spec_reopened(
    a: Autocompletion,
    b: Autocompletion,
    typ: AutocompletionType,
    list: Option<Seq<String>>,
    word: Seq<char>,
) -> bool {
    let full = match list {
        Some(l) => l,
        None => a.full_list@,
    };
    let f = spec_filtered(full, word);
    if full.len() == 0 {
        b.open is None && b.index == a.index
    } else if f.len() == 0 {
        b.open is None && b.index == 0
    } else {
        &&& b.open == Some(typ)
        &&& b.full_list@ == full
        &&& b.filtered_list@ == f
        &&& b.index == (if a.index < f.len() { a.index as int } else { f.len() - 1 })
    }
}

impl Autocompletion {
    /// A closed popup holds no lists; an open one has candidates and
    /// highlights an entry of its narrowed list.
    pub open spec fn wf(&self) -> bool {
        &&& self.open is None ==> self.full_list@.len() == 0 && self.filtered_list@.len() == 0
        &&& self.open is Some ==> self.full_list@.len() > 0 && self.index
            < self.filtered_list@.len()
    }

    /// A closed popup.
    pub fn new() -> (r: Self)
        ensures
            r.wf(),
            r.open is None,
    {
        Autocompletion { open: None, index: 0, full_list: Vec::new(), filtered_list: Vec::new() }
    }

    /// Closes the popup and empties both lists.
    pub fn close_autocompletion(&mut self)
        ensures
            final(self).wf(),
            final(self).open is None,
            final(self).index == 0,
    {
        self.open = None;
        self.index = 0;
        self.full_list.clear();
        self.filtered_list.clear();
    }

    /// Narrows the list to `current_word`. Nothing happens while the popup is
    /// closed. When no candidate matches, the popup closes; otherwise the
    /// highlighted entry is kept, or moved to the last one when the list got
    /// shorter than it.
    pub fn filter_autocompletion_list(&mut self, current_word: &str)
        requires
            old(self).wf(),
        ensures
            final(self).wf(),
            old(self).open is None ==> *final(self) == *old(self),
            old(self).open is Some ==> {
                let f = spec_filtered(old(self).full_list@, current_word@);
                if f.len() == 0 {
                    final(self).open is None
                } else {
                    &&& final(self).open == old(self).open
                    &&& final(self).full_list@ == old(self).full_list@
                    &&& final(self).filtered_list@ == f
                    &&& final(self).index == (if old(self).index < f.len() { old(self).index as int } else { f.len() - 1 })
                }
            },
    {
        if self.open.is_some() {
            let f = filtered_list(&self.full_list, current_word);
            self.filtered_list = f;
            if self.filtered_list.len() == 0 {
                self.close_autocompletion();
            } else if self.index > self.filtered_list.len() - 1 {
                self.index = self.filtered_list.len() - 1;
            }
        }
    }

    /// Opens the popup of kind `typ` on the candidates `list` and narrows it
    /// to `current_word`; with no candidates it stays closed.
    pub fn open_autocompletion(&mut self, typ: AutocompletionType, list: Vec<String>, current_word: &str)
        requires
            old(self).wf(),
            old(self).open is None,
        ensures
            final(self).wf(),
            list@.len() == 0 ==> final(self).open is None,
            list@.len() > 0 ==> {
                let f = spec_filtered(list@, current_word@);
                if f.len() == 0 {
                    final(self).open is None
                } else {
                    &&& final(self).open == Some(typ)
                    &&& final(self).full_list@ == list@
                    &&& final(self).filtered_list@ == f
                    &&& final(self).index == 0
                }
            },
    {
        if list.len() == 0 {
            self.close_autocompletion();
        } else {
            self.filtered_list = list.clone();
            self.full_list = list;
            self.index = 0;
            self.open = Some(typ);
            self.filter_autocompletion_list(current_word);
        }
    }

    /// Opens the popup (or opens it anew) for kind `typ`: the candidates
    /// become `list` where one is given, else stay those held; with none the
    /// popup is closed. Otherwise they are narrowed to `current_word`: with no
    /// match the popup closes, else it opens on the narrowed list and keeps
    /// the highlighted entry, moved to the last one where the list got
    /// shorter than it.
    pub fn reopen(&mut self, typ: AutocompletionType, list: Option<Vec<String>>, current_word: &str)
        requires
            old(self).wf(),
        ensures
            final(self).wf(),
            spec_reopened(
                *old(self),
                *final(self),
                typ,
                match list {
                    Some(l) => Some(l@),
                    None => None,
                },
                current_word@,
            ),
    {
        let ghost full = if list is Some { list->0@ } else { old(self).full_list@ };
        match list {
            Some(l) => {
                self.filtered_list = Vec::new();
                self.full_list = l;
            },
            None => {},
        }
        assert(self.full_list@ == full);
        if self.full_list.len() == 0 {
            self.open = None;
            self.filtered_list = Vec::new();
        } else {
            let f = filtered_list(&self.full_list, current_word);
            if f.len() == 0 {
                self.close_autocompletion();
            } else {
                self.filtered_list = f;
                self.open = Some(typ);
                if self.index > self.filtered_list.len() - 1 {
                    self.index = self.filtered_list.len() - 1;
                }
            }
        }
    }

    /// Moves the highlight up one entry, from the first to the last.
    pub fn select_prev(&mut self)
        requires
            old(self).wf(),
            old(self).open is Some,
        ensures
            final(self).wf(),
            final(self).open == old(self).open,
            final(self).full_list@ == old(self).full_list@,
            final(self).filtered_list@ == old(self).filtered_list@,
            final(self).index == (if old(self).index > 0 { old(self).index - 1 } else { old(self).filtered_list@.len() - 1 }),
    {
        if self.index > 0 {
            self.index = self.index - 1;
        } else {
            self.index = self.filtered_list.len() - 1;
        }
    }

    /// Moves the highlight down one entry, from the last to the first.
    pub fn select_next(&mut self)
        requires
            old(self).wf(),
            old(self).open is Some,
        ensures
            final(self).wf(),
            final(self).open == old(self).open,
            final(self).full_list@ == old(self).full_list@,
            final(self).filtered_list@ == old(self).filtered_list@,
            final(self).index == (if old(self).index + 1 < old(self).filtered_list@.len() { old(self).index + 1 } else { 0 }),
    {
        if self.index < self.filtered_list.len() - 1 {
            self.index = self.index + 1;
        } else {
            self.index = 0;
        }
    }
}

/// An entry goes in at a position within the list.
proof fn lemma_insert_pos_bound(ranked: Seq<(isize, String)>, score: isize)
    ensures
        insert_pos(ranked, score) <= ranked.len(),
    decreases ranked.len(),
{
    if ranked.len() > 0 && ranked.last().0 < score {
        lemma_insert_pos_bound(ranked.drop_last(), score);
    }
}

/// In a list ordered highest first, an entry goes in behind every entry
/// that scored at least as much and before every one that scored less.
proof fn lemma_insert_pos_splits(ranked: Seq<(isize, String)>, score: isize)
    requires
        ranked_desc(ranked),
    ensures
        insert_pos(ranked, score) <= ranked.len(),
        forall|i: int| 0 <= i < insert_pos(ranked, score) ==> ranked[i].0 >= score,
        forall|i: int| insert_pos(ranked, score) <= i < ranked.len() ==> ranked[i].0 < score,
    decreases ranked.len(),
{
    if ranked.len() > 0 {
        let n = ranked.len() - 1;
        if ranked.last().0 >= score {
            assert forall|i: int| 0 <= i < ranked.len() implies ranked[i].0 >= score by {
                assert(ranked[i].0 >= ranked[n].0);
            }
        } else {
            let shorter = ranked.drop_last();
            assert(ranked_desc(shorter));
            lemma_insert_pos_splits(shorter, score);
            assert forall|i: int| 0 <= i < insert_pos(ranked, score) implies ranked[i].0 >= score by {
                assert(shorter[i] == ranked[i]);
            }
            assert forall|i: int| insert_pos(ranked, score) <= i < ranked.len() implies ranked[i].0 < score by {
                if i < n {
                    assert(shorter[i] == ranked[i]);
                }
            }
        }
    }
}

/// Law: the completion list comes out best match first; ranking orders the
/// entries by score, highest first, whatever order they came in.
pub proof fn law_ranked_best_first(entries: Seq<(isize, String)>)
    ensures
        ranked_desc(rank(entries)),
    decreases entries.len(),
{
    if entries.len() > 0 {
        let before = rank(entries.drop_last());
        law_ranked_best_first(entries.drop_last());
        let e = entries.last();
        lemma_insert_pos_splits(before, e.0);
        let p = insert_pos(before, e.0) as int;
        let after = before.insert(p, e);
        assert forall|i: int, j: int| 0 <= i < j < after.len() implies after[i].0 >= after[j].0 by {
            if j < p {
            } else if j == p {
            } else if i < p {
                assert(after[j] == before[j - 1]);
            } else if i == p {
                assert(after[j] == before[j - 1]);
            } else {
                assert(after[i] == before[i - 1]);
                assert(after[j] == before[j - 1]);
            }
        }
    }
}

/// Law: ranking neither drops nor adds an entry; it only reorders them.
pub proof fn law_rank_keeps_entries(entries: Seq<(isize, String)>)
    ensures
        rank(entries).to_multiset() =~= entries.to_multiset(),
    decreases entries.len(),
{
    broadcast use vstd::seq_lib::to_multiset_build, vstd::seq_lib::to_multiset_insert;
    if entries.len() == 0 {
        assert(rank(entries) =~= entries);
    } else {
        let rest = entries.drop_last();
        let e = entries.last();
        let before = rank(rest);
        law_rank_keeps_entries(rest);
        lemma_insert_pos_bound(before, e.0);
        let p = insert_pos(before, e.0) as int;
        assert(rank(entries) == before.insert(p, e));
        assert(before.insert(p, e).to_multiset() == before.to_multiset().insert(e));
        assert(entries =~= rest.push(e));
        assert(rest.push(e).to_multiset() == rest.to_multiset().insert(e));
    }
}

/// Every matched entry is a candidate with its score.
proof fn lemma_matched_from_candidates(names: Seq<String>, scores: Seq<Option<isize>>, n: nat, k: int)
    requires
        n <= names.len(),
        n <= scores.len(),
        0 <= k < matched(names, scores, n).len(),
    ensures
        exists|i: int| 0 <= i < n && names[i] == matched(names, scores, n)[k].1
            && scores[i] == Some(matched(names, scores, n)[k].0),
    decreases n,
{
    let before = matched(names, scores, (n - 1) as nat);
    if k < before.len() {
        lemma_matched_from_candidates(names, scores, (n - 1) as nat, k);
    } else {
        let i = n - 1;
        assert(names[i] == matched(names, scores, n)[k].1);
    }
}

/// Law: with a word to match, every name in the completion list is one of
/// the candidates, and one that the word matches.
pub proof fn law_filtered_only_matches(names: Seq<String>, word: Seq<char>, k: int)
    requires
        word.len() > 0,
        0 <= k < spec_filtered(names, word).len(),
    ensures
        exists|i: int| 0 <= i < names.len() && names[i] == spec_filtered(names, word)[k]
            && fuzzy_score(word, names[i]@) is Some,
{
    broadcast use vstd::seq_lib::to_multiset_contains;
    let scores = scores_for(word, names);
    let m = matched(names, scores, names.len());
    let r = rank(m);
    law_rank_keeps_entries(m);
    let x = r[k];
    assert(r.contains(x));
    assert(r.to_multiset().count(x) > 0);
    assert(m.contains(x));
    let j = choose|j: int| 0 <= j < m.len() && m[j] == x;
    lemma_matched_from_candidates(names, scores, names.len(), j);
    let i = choose|i: int| 0 <= i < names.len() && names[i] == m[j].1 && scores[i] == Some(m[j].0);
    assert(scores[i] == fuzzy_score(word, names[i]@));
}

} // verus!
