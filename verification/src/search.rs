//! Fuzzy search over note titles (and optionally bodies).
use vstd::prelude::*;
use crate::note::Note;
use crate::order::{is_selection, is_stable_sort, keys_ints, key_ints, stable_sort_by_keys};

verus! {

/// The score nucleo's fuzzy matcher gives `text` for the pattern `query`
/// (case-insensitive, smart normalization), or `None` when it does not match.
pub uninterp spec fn fuzzy_score(query: Seq<char>, text: Seq<char>) -> Option<u32>;

/// `nucleo_matcher::pattern::Pattern::score`: parses `query` as a pattern that
/// ignores case and normalizes smartly, and scores `text` against it with the
/// default matcher configuration. The result is named `fuzzy_score`; nothing
/// else is claimed of it.
#[verifier::external_body]
fn pattern_score(query: &str, text: &str) -> (r: Option<u32>)
    ensures
        r == fuzzy_score(query@, text@),
{
    let pattern = nucleo_matcher::pattern::Pattern::parse(
        query,
        nucleo_matcher::pattern::CaseMatching::Ignore,
        nucleo_matcher::pattern::Normalization::Smart,
    );
    let mut matcher = nucleo_matcher::Matcher::new(nucleo_matcher::Config::DEFAULT);
    let mut buf = Vec::new();
    pattern.score(nucleo_matcher::Utf32Str::new(text, &mut buf), &mut matcher)
}

/// The better of the title score and (when searching content and the body
/// is loaded) the body score of a note.
pub open spec fn best_score(query: Seq<char>, n: Note, search_content: bool) -> Option<u32> {
    let t = fuzzy_score(query, n.title@);
    let c = if search_content && n.content is Some {
        fuzzy_score(query, n.content->0@)
    } else {
        None
    };
    match (t, c) {
        (Some(a), Some(b)) => Some(if a >= b { a } else { b }),
        (Some(a), None) => Some(a),
        (None, Some(b)) => Some(b),
        (None, None) => None,
    }
}

/// Ordering keys for ranking: each note's best score (0 when it does not match).
pub open spec fn score_keys(query: Seq<char>, notes: Seq<Note>, search_content: bool) -> Seq<Seq<int>> {
    Seq::new(
        notes.len(),
        |i: int|
            seq![
                match best_score(query, notes[i], search_content) {
                    Some(s) => s as int,
                    None => 0,
                },
            ],
    )
}

/// `r` ranks the matching notes: the positions of the notes with a best
/// score, taken in order and then sorted stably by score, best first.
pub open spec fn is_ranking(r: Seq<usize>, query: Seq<char>, notes: Seq<Note>, search_content: bool) -> bool {
    exists|matched: Seq<usize>|
        is_selection(matched, notes.len() as int, |i: int| best_score(query, notes[i], search_content) is Some)
            && is_stable_sort(r, matched, score_keys(query, notes, search_content), true)
}

/// The score of one note, as `best_score` defines it.
fn note_score(query: &str, note: &Note, search_content: bool) -> (r: Option<u32>)
    ensures
        r == best_score(query@, *note, search_content),
{
    let t = pattern_score(query, note.title.as_str());
    let c = if search_content {
        match &note.content {
            Some(text) => pattern_score(query, text.as_str()),
            None => None,
        }
    } else {
        None
    };
    match (t, c) {
        (Some(a), Some(b)) => Some(if a >= b { a } else { b }),
        (Some(a), None) => Some(a),
        (None, Some(b)) => Some(b),
        (None, None) => None,
    }
}

/// Fuzzy-searches `notes`: an empty query returns every position in order;
/// otherwise the matching positions, best score first, ties in list order.
pub fn fuzzy_search(query: &str, notes: &[Note], search_content: bool) -> (r: Vec<usize>)
    ensures
        query@.len() == 0 ==> r@ == Seq::new(notes@.len(), |i: int| i as usize),
        query@.len() != 0 ==> is_ranking(r@, query@, notes@, search_content),
{
    if query.is_empty() {
        let mut all: Vec<usize> = Vec::new();
        let mut i: usize = 0;
        while i < notes.len()
            invariant
                i <= notes@.len(),
                all@ == Seq::new(i as nat, |k: int| k as usize),
            decreases notes@.len() - i,
        {
            all.push(i);
            assert(all@ =~= Seq::new((i + 1) as nat, |k: int| k as usize));
            i = i + 1;
        }
        return all;
    }
    let ghost pred = |i: int| best_score(query@, notes@[i], search_content) is Some;
    let mut keys: Vec<Vec<i64>> = Vec::new();
    let mut matched: Vec<usize> = Vec::new();
    let mut i: usize = 0;
    while i < notes.len()
        invariant
            i <= notes@.len(),
            keys.len() == i,
            pred == (|i: int| best_score(query@, notes@[i], search_content) is Some),
            forall|j: int| 0 <= j < i ==> key_ints(#[trigger] keys@[j]@) == score_keys(query@, notes@, search_content)[j],
            forall|a: int, b: int| 0 <= a < b < matched.len() ==> matched@[a] < matched@[b],
            forall|a: int| 0 <= a < matched.len() ==> #[trigger] matched@[a] < i && pred(matched@[a] as int),
            forall|k: int| 0 <= k < i && #[trigger] pred(k) ==> matched@.contains(k as usize),
        decreases notes@.len() - i,
    {
        let score = note_score(query, &notes[i], search_content);
        let mut key: Vec<i64> = Vec::new();
        let ghost old_m = matched@;
        match score {
            Some(s) => {
                key.push(s as i64);
                matched.push(i);
            },
            None => {
                key.push(0);
            },
        }
        assert(key_ints(key@) =~= score_keys(query@, notes@, search_content)[i as int]);
        keys.push(key);
        proof {
            assert forall|k: int| 0 <= k < i + 1 && #[trigger] pred(k) implies matched@.contains(k as usize) by {
                if k < i {
                    let w = choose|w: int| 0 <= w < old_m.len() && old_m[w] == k as usize;
                    assert(matched@[w] == k as usize);
                } else {
                    assert(matched@[matched.len() - 1] == i);
                }
            }
        }
        i = i + 1;
    }
    assert(keys_ints(keys@) =~= score_keys(query@, notes@, search_content));
    let ghost selected = matched@;
    assert(is_selection(selected, notes@.len() as int, pred));
    stable_sort_by_keys(matched.as_mut_slice(), &keys, true);
    matched
}

} // verus!
