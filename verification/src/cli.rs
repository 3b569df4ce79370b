//! The command-line front end: its subcommands and the queries they run
//! over a scanned notes directory.
use vstd::prelude::*;
use crate::browse::in_folder;
use crate::note::Note;
use crate::note_manager::NoteManager;
use crate::order::{is_selection, retain_members, all_positions, lemma_selection_equiv, lemma_selection_members};
use crate::paths::{relative_to, path_strip_prefix};
use crate::search::{fuzzy_search, is_ranking};
use crate::text::{str_eq, push_char};

verus! {

/// Subcommands. Without one the interactive interface starts.
pub enum Command {
    /// List notes (tab-separated path and title, or JSON).
    List { json: bool, folder: Option<String>, tag: Option<String> },
    /// Print a note's Markdown body.
    Get { note: String },
    /// Fuzzy-search notes by title.
    Search { query: String, json: bool },
    /// Create a note; body from standard input when piped, else the editor.
    New { title: String, folder: Option<String> },
    /// Overwrite a note's body; from standard input when piped, else the editor.
    SetBody { note: String },
    /// Delete a note.
    Rm { note: String },
    /// Symlink a note into the current directory.
    Link { note: String, name: Option<String> },
}

/// The path of a note relative to the notes directory (its whole path when
/// it is not under it).
pub open spec fn rel_path(path: Seq<char>, dir: Seq<char>) -> Seq<char> {
    match relative_to(path, dir) {
        Some(r) => r,
        None => path,
    }
}

/// Relative path of a note from the notes directory: the identifier the
/// command line uses.
pub fn relative_path(manager: &NoteManager, note: &Note) -> (r: String)
    ensures
        r@ == rel_path(note.path@, manager.notes_dir@),
{
    match path_strip_prefix(note.path.as_str(), manager.notes_dir.as_str()) {
        Some(r) => r,
        None => note.path.clone(),
    }
}

/// One output line: relative path, a tab, the title.
pub open spec fn note_row(nm: NoteManager, i: int) -> Seq<char> {
    rel_path(nm.notes@[i].path@, nm.notes_dir@) + seq!['\t'] + nm.notes@[i].title@
}

/// The rows of the notes at `idx`, joined by line feeds.
pub open spec fn rows(nm: NoteManager, idx: Seq<usize>) -> Seq<char>
    decreases idx.len(),
{
    if idx.len() == 0 {
        Seq::empty()
    } else if idx.len() == 1 {
        note_row(nm, idx[0] as int)
    } else {
        rows(nm, idx.drop_last()) + seq!['\n'] + note_row(nm, idx.last() as int)
    }
}

/// The notes at `indices` as tab-separated lines of relative path and title.
pub fn format_notes(manager: &NoteManager, indices: &[usize]) -> (r: String)
    requires
        forall|k: int| 0 <= k < indices@.len() ==> #[trigger] indices@[k] < manager.notes@.len(),
    ensures
        r@ == rows(*manager, indices@),
{
    let mut r = String::new();
    let mut k: usize = 0;
    while k < indices.len()
        invariant
            k <= indices@.len(),
            forall|j: int| 0 <= j < indices@.len() ==> #[trigger] indices@[j] < manager.notes@.len(),
            r@ == rows(*manager, indices@.take(k as int)),
        decreases indices@.len() - k,
    {
        let i = indices[k];
        proof {
            assert(indices@.take(k + 1).drop_last() =~= indices@.take(k as int));
            assert(indices@.take(k + 1).last() == i);
        }
        if k > 0 {
            push_char(&mut r, '\n');
        } else {
            assert(r@ =~= Seq::<char>::empty());
        }
        let rel = relative_path(manager, &manager.notes[i]);
        r.append(rel.as_str());
        push_char(&mut r, '\t');
        r.append(manager.notes[i].title.as_str());
        proof {
            if k == 0 {
                assert(indices@.take(1) =~= seq![i]);
                assert(r@ =~= note_row(*manager, i as int));
            } else {
                assert(r@ =~= rows(*manager, indices@.take(k as int)) + seq!['\n'] + note_row(*manager, i as int));
            }
        }
        k = k + 1;
    }
    assert(indices@.take(indices@.len() as int) =~= indices@);
    r
}

/// Whether the note at `i` carries exactly the tag `tag`.
pub open spec fn has_exact_tag(nm: NoteManager, i: int, tag: Seq<char>) -> bool {
    exists|k: int| 0 <= k < nm.notes@[i].tags@.len() && #[trigger] nm.notes@[i].tags@[k]@ == tag
}

/// Whether the note at `i` is listed with these filters.
pub open spec fn listed(nm: NoteManager, folder: Option<Seq<char>>, tag: Option<Seq<char>>, i: int) -> bool {
    &&& (folder matches Some(f) ==> in_folder(nm, f, i))
    &&& (tag matches Some(t) ==> has_exact_tag(nm, i, t))
}

/// The positions of the notes carrying exactly `tag`.
fn notes_with_tag(manager: &NoteManager, tag: &str) -> (r: Vec<usize>)
    ensures
        is_selection(r@, manager.notes@.len() as int, |i: int| has_exact_tag(*manager, i, tag@)),
{
    let mut r: Vec<usize> = Vec::new();
    let mut i: usize = 0;
    while i < manager.notes.len()
        invariant
            i <= manager.notes@.len(),
            forall|a: int, b: int| 0 <= a < b < r.len() ==> r@[a] < r@[b],
            forall|a: int| 0 <= a < r.len() ==> #[trigger] r@[a] < i && has_exact_tag(*manager, r@[a] as int, tag@),
            forall|k: int| 0 <= k < i && has_exact_tag(*manager, k, tag@) ==> r@.contains(k as usize),
        decreases manager.notes@.len() - i,
    {
        let tags = &manager.notes[i].tags;
        let mut hit = false;
        let mut t: usize = 0;
        while t < tags.len()
            invariant
                i < manager.notes@.len(),
                tags == manager.notes@[i as int].tags,
                t <= tags.len(),
                hit <==> exists|s: int| 0 <= s < t && #[trigger] tags@[s]@ == tag@,
            decreases tags.len() - t,
        {
            if str_eq(tags[t].as_str(), tag) {
                hit = true;
            }
            t = t + 1;
        }
        let ghost old_r = r@;
        if hit {
            r.push(i);
        }
        proof {
            assert forall|k: int| 0 <= k < i + 1 && has_exact_tag(*manager, k, tag@) implies r@.contains(k as usize) by {
                if k < i {
                    let w = choose|w: int| 0 <= w < old_r.len() && old_r[w] == k as usize;
                    assert(r@[w] == k as usize);
                } else {
                    assert(r@[r.len() - 1] == i);
                }
            }
        }
        i = i + 1;
    }
    r
}

/// The notes listed by `list`: those directly in `folder` (all notes when
/// none is given) that carry exactly `tag` (when given), in list order.
pub fn list(manager: &NoteManager, folder: Option<&str>, tag: Option<&str>) -> (r: Vec<usize>)
    ensures
        is_selection(
            r@,
            manager.notes@.len() as int,
            |i: int| listed(*manager, opt_str(folder), opt_str(tag), i),
        ),
{
    let n = manager.notes.len();
    let ghost f = opt_str(folder);
    let ghost p0 = |i: int| f matches Some(fv) ==> in_folder(*manager, fv, i);
    let base = match folder {
        Some(fd) => {
            let v = manager.notes_in_folder(fd);
            proof {
                lemma_selection_equiv(
                    v@,
                    n as int,
                    |i: int| crate::paths::same_path(crate::note_manager::note_folder(manager.notes@[i].path@, manager.notes_dir@), fd@),
                    p0,
                );
            }
            v
        },
        None => {
            let v = all_positions(n);
            proof {
                lemma_selection_equiv(v@, n as int, |i: int| true, p0);
            }
            v
        },
    };
    let ghost t = opt_str(tag);
    let ghost q = |i: int| t matches Some(tv) ==> has_exact_tag(*manager, i, tv);
    let r = match tag {
        Some(tg) => {
            let hits = notes_with_tag(manager, tg);
            proof {
                assert forall|x: int| 0 <= x < n implies (#[trigger] hits@.contains(x as usize) <==> q(x)) by {
                    lemma_selection_members(hits@, n as int, |i: int| has_exact_tag(*manager, i, tg@), x);
                }
            }
            retain_members(&base, &hits, Ghost(n as int), Ghost(p0), Ghost(q))
        },
        None => {
            proof {
                lemma_selection_equiv(base@, n as int, p0, |x: int| p0(x) && q(x));
            }
            base
        },
    };
    proof {
        lemma_selection_equiv(r@, n as int, |x: int| p0(x) && q(x), |i: int| listed(*manager, f, t, i));
    }
    r
}

/// An optional text as an optional character sequence.
pub open spec fn opt_str(o: Option<&str>) -> Option<Seq<char>> {
    match o {
        Some(s) => Some(s@),
        None => None,
    }
}

/// Fuzzy-searches the note titles (bodies are not searched).
pub fn search(manager: &NoteManager, query: &str) -> (r: Vec<usize>)
    ensures
        query@.len() == 0 ==> r@ == Seq::new(manager.notes@.len(), |i: int| i as usize),
        query@.len() != 0 ==> is_ranking(r@, query@, manager.notes@, false),
{
    fuzzy_search(query, manager.notes.as_slice(), false)
}

/// `ranked` is what a title search for `query` gives.
pub open spec fn title_search(nm: NoteManager, query: Seq<char>, ranked: Seq<usize>) -> bool {
    if query.len() == 0 {
        ranked == Seq::new(nm.notes@.len(), |i: int| i as usize)
    } else {
        is_ranking(ranked, query, nm.notes@, false)
    }
}

/// The first note whose relative path is `query`.
pub open spec fn path_match(nm: NoteManager, query: Seq<char>) -> Option<int> {
    if exists|i: int| 0 <= i < nm.notes@.len() && #[trigger] rel_path(nm.notes@[i].path@, nm.notes_dir@) == query {
        Some(
            choose|i: int|
                0 <= i < nm.notes@.len() && #[trigger] rel_path(nm.notes@[i].path@, nm.notes_dir@) == query
                    && forall|j: int| 0 <= j < i ==> rel_path(nm.notes@[j].path@, nm.notes_dir@) != query,
        )
    } else {
        None
    }
}

/// Resolves a note argument: the first note whose relative path is
/// `query`; otherwise the best fuzzy title match; otherwise an error.
pub fn resolve_note(manager: &NoteManager, query: &str) -> (r: Result<usize, String>)
    ensures
        match path_match(*manager, query@) {
            Some(i) => r == Ok::<usize, String>(i as usize),
            None => exists|ranked: Seq<usize>|
                #[trigger] title_search(*manager, query@, ranked) && match r {
                    Ok(i) => ranked.len() > 0 && i == ranked[0],
                    Err(m) => ranked.len() == 0 && m@ == "no note matches '"@ + query@ + "'"@,
                },
        },
{
    let mut i: usize = 0;
    while i < manager.notes.len()
        invariant
            i <= manager.notes@.len(),
            forall|j: int| 0 <= j < i ==> rel_path(manager.notes@[j].path@, manager.notes_dir@) != query@,
        decreases manager.notes@.len() - i,
    {
        let rel = relative_path(manager, &manager.notes[i]);
        if str_eq(rel.as_str(), query) {
            proof {
                let nm = *manager;
                let k = choose|k: int|
                    0 <= k < nm.notes@.len() && #[trigger] rel_path(nm.notes@[k].path@, nm.notes_dir@) == query@
                        && forall|j: int| 0 <= j < k ==> rel_path(nm.notes@[j].path@, nm.notes_dir@) != query@;
                if k < i {
                    assert(rel_path(nm.notes@[k].path@, nm.notes_dir@) != query@);
                }
                if k > i {
                    assert(rel_path(nm.notes@[i as int].path@, nm.notes_dir@) != query@);
                }
            }
            return Ok(i);
        }
        i = i + 1;
    }
    let ranked = fuzzy_search(query, manager.notes.as_slice(), false);
    assert(title_search(*manager, query@, ranked@));
    if ranked.len() > 0 {
        Ok(ranked[0])
    } else {
        let mut m = String::from_str("no note matches '");
        m.append(query);
        m.append("'");
        assert(title_search(*manager, query@, ranked@));
        Err(m)
    }
}

} // verus!
