//! The generation history: newest first, at most fifty entries.

use vstd::prelude::*;

use crate::text::{same_text, take_chars};

verus! {

/// One past generation.
pub struct HistoryEntry {
    pub id: String,
    pub timestamp: String,
    pub jd_snippet: String,
    pub template_name: String,
    pub latex: String,
    pub pdf_path: Option<String>,
}

impl Clone for HistoryEntry {
    fn clone(&self) -> (r: HistoryEntry)
        ensures
            r == *self,
    {
        HistoryEntry {
            id: self.id.clone(),
            timestamp: self.timestamp.clone(),
            jd_snippet: self.jd_snippet.clone(),
            template_name: self.template_name.clone(),
            latex: self.latex.clone(),
            pdf_path: match &self.pdf_path {
                Some(p) => Some(p.clone()),
                None => None,
            },
        }
    }
}

/// The number of entries kept.
pub const HISTORY_LIMIT: usize = 50;

/// The number of characters of the job description kept in an entry.
pub const SNIPPET_CHARS: usize = 200;

/// The first [`SNIPPET_CHARS`] characters of a job description.
pub open spec fn snippet(jd: Seq<char>) -> Seq<char> {
    if jd.len() <= SNIPPET_CHARS {
        jd
    } else {
        jd.take(SNIPPET_CHARS as int)
    }
}

/// The view of an optional text.
pub open spec fn opt_text(o: Option<&str>) -> Option<Seq<char>> {
    match o {
        Some(s) => Some(s@),
        None => None,
    }
}

/// `e` records a generation for `jd` with `template_name`, `latex` and
/// `pdf_path`, under `id` at `timestamp`.
pub open spec fn records(
    e: HistoryEntry,
    id: Seq<char>,
    timestamp: Seq<char>,
    jd: Seq<char>,
    template_name: Seq<char>,
    latex: Seq<char>,
    pdf_path: Option<Seq<char>>,
) -> bool {
    &&& e.id@ == id
    &&& e.timestamp@ == timestamp
    &&& e.jd_snippet@ == snippet(jd)
    &&& e.template_name@ == template_name
    &&& e.latex@ == latex
    &&& crate::compile::opt_view(e.pdf_path) == pdf_path
}

/// A history entry with the given identifier and time stamp.
pub fn history_entry(
    id: String,
    timestamp: String,
    jd: &str,
    template_name: &str,
    latex: &str,
    pdf_path: Option<&str>,
) -> (e: HistoryEntry)
    ensures
        records(e, id@, timestamp@, jd@, template_name@, latex@, opt_text(pdf_path)),
{
    HistoryEntry {
        id,
        timestamp,
        jd_snippet: take_chars(jd, SNIPPET_CHARS),
        template_name: String::from_str(template_name),
        latex: String::from_str(latex),
        pdf_path: match pdf_path {
            Some(p) => Some(String::from_str(p)),
            None => None,
        },
    }
}

/// `history` after `entry` was put in front, cut to [`HISTORY_LIMIT`].
pub open spec fn with_new_entry(history: Seq<HistoryEntry>, entry: HistoryEntry) -> Seq<
    HistoryEntry,
> {
    let all = seq![entry] + history;
    if all.len() > HISTORY_LIMIT {
        all.take(HISTORY_LIMIT as int)
    } else {
        all
    }
}

/// Puts `entry` in front of `history`, which keeps its newest
/// [`HISTORY_LIMIT`] entries.
pub fn record_history(history: &mut Vec<HistoryEntry>, entry: HistoryEntry)
    ensures
        final(history)@ == with_new_entry(old(history)@, entry),
{
    history.insert(0, entry);
    if history.len() > HISTORY_LIMIT {
        history.truncate(HISTORY_LIMIT);
    }
    assert(history@ =~= with_new_entry(old(history)@, entry));
}

/// Records a generation under the identifier `id` (a fresh random UUID,
/// which the caller draws) at `timestamp` (the current time, which the
/// caller reads): the new entry goes in front of `history`, which keeps
/// its newest [`HISTORY_LIMIT`] entries. Returns the new entry.
pub fn add_history(
    history: &mut Vec<HistoryEntry>,
    id: String,
    timestamp: String,
    jd: &str,
    template_name: &str,
    latex: &str,
    pdf_path: Option<&str>,
) -> (e: HistoryEntry)
    ensures
        records(e, id@, timestamp@, jd@, template_name@, latex@, opt_text(pdf_path)),
        final(history)@ == with_new_entry(old(history)@, e),
{
    let entry = history_entry(id, timestamp, jd, template_name, latex, pdf_path);
    record_history(history, entry.clone());
    entry
}

/// `history` without the entries whose identifier is `id`, order kept.
pub open spec fn without_id(history: Seq<HistoryEntry>, id: Seq<char>) -> Seq<HistoryEntry>
    decreases history.len(),
{
    if history.len() == 0 {
        history
    } else if history.last().id@ == id {
        without_id(history.drop_last(), id)
    } else {
        without_id(history.drop_last(), id).push(history.last())
    }
}

/// Removes every entry with identifier `id`.
pub fn delete_history(history: &mut Vec<HistoryEntry>, id: &str)
    ensures
        final(history)@ == without_id(old(history)@, id@),
        final(history)@ == old(history)@.filter(other_id(id@)),
{
    proof {
        lemma_delete_is_filter(history@, id@);
    }
    let ghost before = history@;
    let mut kept: Vec<HistoryEntry> = Vec::new();
    let mut i: usize = 0;
    assert(before.take(0) =~= Seq::<HistoryEntry>::empty());
    while i < history.len()
        invariant
            history@ == before,
            i <= before.len(),
            kept@ == without_id(before.take(i as int), id@),
        decreases history.len() - i,
    {
        assert(before.take(i + 1).drop_last() =~= before.take(i as int));
        if !same_text(history[i].id.as_str(), id) {
            kept.push(history[i].clone());
        }
        i = i + 1;
    }
    assert(before.take(before.len() as int) =~= before);
    *history = kept;
}

/// Removes every entry.
pub fn clear_history(history: &mut Vec<HistoryEntry>)
    ensures
        final(history)@.len() == 0,
{
    history.clear();
}

/// After a deletion no entry has the deleted identifier, and every entry
/// with another identifier is still there.
pub proof fn lemma_delete_removes_exactly(history: Seq<HistoryEntry>, id: Seq<char>)
    ensures
        forall|i: int|
            0 <= i < without_id(history, id).len() ==> #[trigger] without_id(history, id)[i].id@
                != id,
        forall|e: HistoryEntry| #[trigger]
            history.contains(e) && e.id@ != id ==> without_id(history, id).contains(e),
        without_id(history, id).len() <= history.len(),
    decreases history.len(),
{
    if history.len() > 0 {
        let rest = history.drop_last();
        lemma_delete_removes_exactly(rest, id);
        assert forall|e: HistoryEntry| #[trigger]
            history.contains(e) && e.id@ != id implies without_id(history, id).contains(e) by {
            let k = choose|k: int| 0 <= k < history.len() && history[k] == e;
            if k < history.len() - 1 {
                assert(rest[k] == e);
                assert(rest.contains(e));
                let j = choose|j: int|
                    0 <= j < without_id(rest, id).len() && without_id(rest, id)[j] == e;
                if history.last().id@ != id {
                    assert(without_id(history, id)[j] == e);
                }
            } else {
                assert(without_id(history, id).last() == e);
            }
        }
    }
}

/// Whether an entry has an identifier other than `id`.
pub open spec fn other_id(id: Seq<char>) -> spec_fn(HistoryEntry) -> bool {
    |e: HistoryEntry| e.id@ != id
}

/// A deletion keeps, in order, exactly the entries with another
/// identifier; when no entry has the identifier, nothing changes.
pub proof fn lemma_delete_is_filter(history: Seq<HistoryEntry>, id: Seq<char>)
    ensures
        without_id(history, id) == history.filter(other_id(id)),
        (forall|i: int| 0 <= i < history.len() ==> (#[trigger] history[i]).id@ != id)
            ==> without_id(history, id) == history,
    decreases history.len(),
{
    reveal(Seq::filter);
    if history.len() > 0 {
        let rest = history.drop_last();
        lemma_delete_is_filter(rest, id);
        if forall|i: int| 0 <= i < history.len() ==> (#[trigger] history[i]).id@ != id {
            assert forall|i: int| 0 <= i < rest.len() implies (#[trigger] rest[i]).id@ != id by {
                assert(rest[i] == history[i]);
            }
            assert(history.last() == history[history.len() - 1]);
            assert(rest.push(history.last()) =~= history);
        }
    }
}

/// Adding an entry puts it first, keeps the earlier entries after it in
/// order, and never leaves more than [`HISTORY_LIMIT`] entries.
pub proof fn lemma_new_entry_first(history: Seq<HistoryEntry>, entry: HistoryEntry)
    ensures
        with_new_entry(history, entry)[0] == entry,
        with_new_entry(history, entry).len() <= HISTORY_LIMIT,
        with_new_entry(history, entry).len() == if history.len() + 1 > HISTORY_LIMIT {
            HISTORY_LIMIT as int
        } else {
            history.len() + 1int
        },
        forall|i: int|
            1 <= i < with_new_entry(history, entry).len() ==> #[trigger] with_new_entry(
                history,
                entry,
            )[i] == history[i - 1],
{
}

/// The snippet of a job description is its beginning: its first 200
/// characters, or all of it when it is shorter.
pub proof fn lemma_snippet_is_beginning(jd: Seq<char>)
    ensures
        crate::text::has_prefix(jd, snippet(jd)),
        snippet(jd).len() == if jd.len() <= 200 {
            jd.len()
        } else {
            200
        },
{
    assert(jd.subrange(0, snippet(jd).len() as int) =~= snippet(jd));
}

/// A recorded entry keeps the beginning of the job description, and the
/// identifier, time stamp, template name, source and PDF path it was given.
pub proof fn lemma_entry_keeps_beginning(
    e: HistoryEntry,
    id: Seq<char>,
    timestamp: Seq<char>,
    jd: Seq<char>,
    template_name: Seq<char>,
    latex: Seq<char>,
    pdf_path: Option<Seq<char>>,
)
    requires
        records(e, id, timestamp, jd, template_name, latex, pdf_path),
    ensures
        crate::text::has_prefix(jd, e.jd_snippet@),
        e.jd_snippet@.len() == if jd.len() <= 200 {
            jd.len()
        } else {
            200
        },
        e.id@ == id,
        e.timestamp@ == timestamp,
        e.template_name@ == template_name,
        e.latex@ == latex,
{
    lemma_snippet_is_beginning(jd);
}

} // verus!
