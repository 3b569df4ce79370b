//! Sorting the displayed note indices by date or title.
use vstd::prelude::*;
use crate::app::SortMode;
use crate::note::{Note, timestamp_key, timestamp_key_exec};
use crate::order::{is_stable_sort, keys_ints, stable_sort_by_keys};
use crate::text::{code_points, lowercase, to_lowercase, code_point_key};

verus! {

/// The key a note is sorted by in the given mode: a timestamp, or the
/// code points of the lowercased title.
pub open spec fn note_sort_key(n: Note, mode: SortMode) -> Seq<int> {
    match mode {
        SortMode::ByModified => timestamp_key(n.modified),
        SortMode::ByCreated => timestamp_key(n.created),
        SortMode::ByTitle => code_points(lowercase(n.title@)),
    }
}

/// The sort keys of all notes, by position.
pub open spec fn note_sort_keys(notes: Seq<Note>, mode: SortMode) -> Seq<Seq<int>> {
    Seq::new(notes.len(), |i: int| note_sort_key(notes[i], mode))
}

/// Sorts `indices` (positions into `notes`) in place: oldest first or A-Z
/// when `ascending`, newest first or Z-A otherwise. Titles compare
/// case-insensitively; notes that compare equal keep their relative order.
pub fn sort_notes(indices: &mut [usize], notes: &[Note], mode: SortMode, ascending: bool)
    requires
        forall|i: int| 0 <= i < old(indices)@.len() ==> #[trigger] old(indices)@[i] < notes@.len(),
    ensures
        is_stable_sort(final(indices)@, old(indices)@, note_sort_keys(notes@, mode), !ascending),
{
    let mut keys: Vec<Vec<i64>> = Vec::new();
    let mut i: usize = 0;
    while i < notes.len()
        invariant
            i <= notes@.len(),
            keys.len() == i,
            forall|j: int| 0 <= j < i ==> crate::order::key_ints(#[trigger] keys@[j]@) == note_sort_key(notes@[j], mode),
        decreases notes@.len() - i,
    {
        let key = match mode {
            SortMode::ByModified => timestamp_key_exec(notes[i].modified),
            SortMode::ByCreated => timestamp_key_exec(notes[i].created),
            SortMode::ByTitle => {
                let lower = to_lowercase(notes[i].title.as_str());
                code_point_key(lower.as_str())
            },
        };
        keys.push(key);
        i = i + 1;
    }
    assert(keys_ints(keys@) =~= note_sort_keys(notes@, mode));
    stable_sort_by_keys(indices, &keys, !ascending);
}

} // verus!
