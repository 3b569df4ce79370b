//! The in-memory collection of notes and folders of a notes directory,
//! and the folder queries the browser needs.
use vstd::prelude::*;
use crate::note::Note;
use crate::order::{is_selection, is_stable_sort, stable_sort_by_keys, stable_sort_witness, keys_ints, key_ints};
use crate::paths::{
    parent_of, path_parent, file_name_of, path_file_name, relative_to, path_strip_prefix,
    same_path, paths_equal, components_of, path_components, joined_path, join_path,
};
use crate::text::{code_points, code_point_key};
use crate::note::push_decimal;

verus! {

/// The notes and folders found under a notes directory.
pub struct NoteManager {
    /// The notes directory.
    pub notes_dir: String,
    /// All notes, in discovery order.
    pub notes: Vec<Note>,
    /// Relative paths of all subdirectories.
    pub folders: Vec<String>,
    /// Warnings from the last scan (unreadable entries or notes).
    pub scan_warnings: Vec<String>,
}

/// The ordering key of a relative folder path: the code points of each
/// component followed by `-1`, so folders order component by component.
pub open spec fn components_key(cs: Seq<Seq<char>>) -> Seq<int>
    decreases cs.len(),
{
    if cs.len() == 0 {
        Seq::empty()
    } else {
        components_key(cs.drop_last()) + code_points(cs.last()) + seq![-1int]
    }
}

/// The ordering key of a folder path.
pub open spec fn folder_key(path: Seq<char>) -> Seq<int> {
    components_key(components_of(path))
}

/// The folder (relative to `dir`) that a note at `path` lives in: its
/// parent directory relative to `dir`, or the root when that fails.
pub open spec fn note_folder(path: Seq<char>, dir: Seq<char>) -> Seq<char> {
    match parent_of(path) {
        Some(p) => match relative_to(p, dir) {
            Some(r) => r,
            None => Seq::empty(),
        },
        None => Seq::empty(),
    }
}

/// The folder sort keys of a list of folder paths.
pub open spec fn folder_keys(folders: Seq<String>) -> Seq<Seq<int>> {
    Seq::new(folders.len(), |i: int| folder_key(folders[i]@))
}

/// The name of a folder, when it has one.
pub open spec fn folder_name(path: Seq<char>) -> Seq<char> {
    match file_name_of(path) {
        Some(n) => n,
        None => Seq::empty(),
    }
}

/// The folder is an immediate subfolder of `parent` and has a name.
pub open spec fn is_child_folder(path: Seq<char>, parent: Seq<char>) -> bool {
    &&& parent_of(path) matches Some(p) && same_path(p, parent)
    &&& file_name_of(path) is Some
}

/// The name keys of a list of folders.
pub open spec fn subfolder_keys(folders: Seq<String>) -> Seq<Seq<int>> {
    Seq::new(folders.len(), |i: int| code_points(folder_name(folders[i]@)))
}

/// `r` lists the names of the immediate subfolders of `parent`, sorted by
/// code points (stably, keeping list order between equal names).
pub open spec fn is_subfolder_list(r: Seq<String>, folders: Seq<String>, parent: Seq<char>) -> bool {
    exists|sel: Seq<usize>, order: Seq<usize>|
        #![trigger is_stable_sort(order, sel, subfolder_keys(folders), false)]
        is_selection(sel, folders.len() as int, |i: int| is_child_folder(folders[i]@, parent))
            && is_stable_sort(order, sel, subfolder_keys(folders), false) && r.len() == order.len() && forall|k: int|
            0 <= k < order.len() ==> #[trigger] r[k]@ == folder_name(folders[order[k] as int]@)
}

/// `out` keeps, in order, the folders of `input` that are not `path`.
pub open spec fn is_folder_removal(out: Seq<String>, input: Seq<String>, path: Seq<char>) -> bool {
    exists|sel: Seq<usize>|
        is_selection(sel, input.len() as int, |i: int| !same_path(input[i]@, path))
            && #[trigger] picks(out, input, sel)
}

/// `out` is the items of `input` at the positions listed in `sel`.
pub open spec fn picks(out: Seq<String>, input: Seq<String>, sel: Seq<usize>) -> bool {
    out.len() == sel.len() && forall|k: int| 0 <= k < sel.len() ==> #[trigger] out[k] == input[sel[k] as int]
}

/// The positions `0..n`, in order.
pub open spec fn positions(n: nat) -> Seq<usize> {
    Seq::new(n, |i: int| i as usize)
}

/// `out` is `input` sorted stably by folder key.
pub open spec fn is_folder_sort(out: Seq<String>, input: Seq<String>) -> bool {
    exists|order: Seq<usize>|
        is_stable_sort(order, positions(input.len()), folder_keys(input), false) && #[trigger] picks(out, input, order)
}

/// The ordering key of a folder path, as an exec key.
fn folder_key_exec(path: &str) -> (k: Vec<i64>)
    ensures
        key_ints(k@) == folder_key(path@),
{
    let cs = path_components(path);
    let ghost csv = cs@.map_values(|s: String| s@);
    let mut k: Vec<i64> = Vec::new();
    let mut i: usize = 0;
    while i < cs.len()
        invariant
            i <= cs.len(),
            csv == cs@.map_values(|s: String| s@),
            key_ints(k@) == components_key(csv.take(i as int)),
        decreases cs.len() - i,
    {
        let part = code_point_key(cs[i].as_str());
        let ghost before = k@;
        let mut j: usize = 0;
        while j < part.len()
            invariant
                j <= part.len(),
                k@ == before + part@.take(j as int),
            decreases part.len() - j,
        {
            k.push(part[j]);
            assert(part@.take(j + 1) =~= part@.take(j as int).push(part@[j as int]));
            j = j + 1;
        }
        k.push(-1);
        proof {
            assert(part@.take(part.len() as int) =~= part@);
            assert(csv.take(i + 1).drop_last() =~= csv.take(i as int));
            assert(csv.take(i + 1).last() == cs@[i as int]@);
            assert(key_ints(k@) =~= key_ints(before) + key_ints(part@) + seq![-1int]);
        }
        i = i + 1;
    }
    assert(csv.take(cs.len() as int) =~= csv);
    k
}

/// Sorts folder paths stably by their component keys.
pub fn sort_folders(folders: &mut Vec<String>)
    ensures
        is_folder_sort(final(folders)@, old(folders)@),
        final(folders)@.len() == old(folders)@.len(),
{
    let ghost orig = folders@;
    let mut keys: Vec<Vec<i64>> = Vec::new();
    let mut items: Vec<usize> = Vec::new();
    let mut i: usize = 0;
    while i < folders.len()
        invariant
            i <= folders.len(),
            folders@ == orig,
            keys.len() == i,
            items@ == Seq::new(i as nat, |q: int| q as usize),
            forall|q: int| 0 <= q < i ==> key_ints(#[trigger] keys@[q]@) == folder_key(folders@[q]@),
        decreases folders.len() - i,
    {
        keys.push(folder_key_exec(folders[i].as_str()));
        items.push(i);
        assert(items@ =~= Seq::new((i + 1) as nat, |q: int| q as usize));
        i = i + 1;
    }
    assert(keys_ints(keys@) =~= folder_keys(orig));
    let ghost before = items@;
    stable_sort_by_keys(items.as_mut_slice(), &keys, false);
    let ghost order = items@;
    let ghost p = choose|p: Seq<int>| stable_sort_witness(items@, before, p, keys_ints(keys@), false);
    let mut out: Vec<String> = Vec::new();
    let mut m: usize = 0;
    while m < items.len()
        invariant
            items@ == order,
            stable_sort_witness(order, before, p, keys_ints(keys@), false),
            before.len() == orig.len(),
            forall|q: int| 0 <= q < before.len() ==> #[trigger] before[q] == q as usize,
            folders@ == orig,
            m <= items.len(),
            out.len() == m,
            forall|q: int| 0 <= q < m ==> #[trigger] out@[q] == orig[order[q] as int],
        decreases items.len() - m,
    {
        out.push(folders[items[m]].clone());
        m = m + 1;
    }
    *folders = out;
    assert(before =~= positions(orig.len()));
    assert(picks(folders@, orig, order));
}

impl NoteManager {
    /// A manager for `notes_dir` with nothing loaded yet.
    pub fn new(notes_dir: String) -> (r: NoteManager)
        ensures
            r.notes_dir == notes_dir,
            r.notes@.len() == 0,
            r.folders@.len() == 0,
            r.scan_warnings@.len() == 0,
    {
        NoteManager { notes_dir, notes: Vec::new(), folders: Vec::new(), scan_warnings: Vec::new() }
    }

    /// Replaces the notes, folders and warnings with the results of a scan;
    /// folders are sorted.
    pub fn set_scan_results(&mut self, notes: Vec<Note>, folders: Vec<String>, warnings: Vec<String>)
        ensures
            final(self).notes_dir == old(self).notes_dir,
            final(self).notes@ == notes@,
            final(self).scan_warnings@ == warnings@,
            is_folder_sort(final(self).folders@, folders@),
            final(self).folders@.len() == folders@.len(),
    {
        let mut folders = folders;
        sort_folders(&mut folders);
        self.notes = notes;
        self.folders = folders;
        self.scan_warnings = warnings;
    }

    /// Read-only access to the notes.
    pub fn notes(&self) -> (r: &[Note])
        ensures
            r@ == self.notes@,
    {
        self.notes.as_slice()
    }

    /// `Ok` when `index` names a note, otherwise the out-of-bounds message.
    pub fn check_index(&self, index: usize) -> (r: Result<(), String>)
        ensures
            r is Ok <==> index < self.notes@.len(),
            r matches Err(m) ==> m@ == "note index "@ + crate::note::decimal(index as nat)
                + " out of bounds (have "@ + crate::note::decimal(self.notes@.len()) + " notes)"@,
    {
        if index < self.notes.len() {
            return Ok(());
        }
        let mut m = String::from_str("note index ");
        push_decimal_usize(&mut m, index);
        m.append(" out of bounds (have ");
        push_decimal_usize(&mut m, self.notes.len());
        m.append(" notes)");
        Err(m)
    }

    /// Adds a note at the end of the list.
    pub fn add_note(&mut self, note: Note)
        ensures
            final(self).notes@ == old(self).notes@.push(note),
            final(self).notes_dir == old(self).notes_dir,
            final(self).folders == old(self).folders,
            final(self).scan_warnings == old(self).scan_warnings,
    {
        self.notes.push(note);
    }

    /// Removes the note at `index` from the list.
    pub fn remove_note(&mut self, index: usize)
        requires
            index < old(self).notes@.len(),
        ensures
            final(self).notes@ == old(self).notes@.remove(index as int),
            final(self).notes_dir == old(self).notes_dir,
            final(self).folders == old(self).folders,
            final(self).scan_warnings == old(self).scan_warnings,
    {
        self.notes.remove(index);
    }

    /// Replaces the note at `index` (after reloading it).
    pub fn replace_note(&mut self, index: usize, note: Note)
        requires
            index < old(self).notes@.len(),
        ensures
            final(self).notes@ == old(self).notes@.update(index as int, note),
            final(self).notes_dir == old(self).notes_dir,
            final(self).folders == old(self).folders,
            final(self).scan_warnings == old(self).scan_warnings,
    {
        self.notes.set(index, note);
    }

    /// Records the loaded body of the note at `index`.
    pub fn set_content(&mut self, index: usize, body: String)
        requires
            index < old(self).notes@.len(),
        ensures
            final(self).notes@.len() == old(self).notes@.len(),
            forall|i: int| 0 <= i < old(self).notes@.len() && i != index ==> #[trigger] final(self).notes@[i] == old(self).notes@[i],
            final(self).notes@[index as int].content == Some(body),
            final(self).notes@[index as int].path == old(self).notes@[index as int].path,
            final(self).notes@[index as int].title == old(self).notes@[index as int].title,
            final(self).notes@[index as int].tags == old(self).notes@[index as int].tags,
            final(self).notes@[index as int].created == old(self).notes@[index as int].created,
            final(self).notes@[index as int].modified == old(self).notes@[index as int].modified,
            final(self).notes_dir == old(self).notes_dir,
            final(self).folders == old(self).folders,
            final(self).scan_warnings == old(self).scan_warnings,
    {
        self.notes[index].content = Some(body);
    }

    /// Records a new path for the note at `index` (after a move or rename).
    pub fn set_note_path(&mut self, index: usize, path: String)
        requires
            index < old(self).notes@.len(),
        ensures
            final(self).notes@.len() == old(self).notes@.len(),
            forall|i: int| 0 <= i < old(self).notes@.len() && i != index ==> #[trigger] final(self).notes@[i] == old(self).notes@[i],
            final(self).notes@[index as int].path == path,
            final(self).notes@[index as int].content == old(self).notes@[index as int].content,
            final(self).notes@[index as int].title == old(self).notes@[index as int].title,
            final(self).notes@[index as int].tags == old(self).notes@[index as int].tags,
            final(self).notes@[index as int].created == old(self).notes@[index as int].created,
            final(self).notes@[index as int].modified == old(self).notes@[index as int].modified,
            final(self).notes_dir == old(self).notes_dir,
            final(self).folders == old(self).folders,
            final(self).scan_warnings == old(self).scan_warnings,
    {
        self.notes[index].path = path;
    }

    /// Records a new title for the note at `index`.
    pub fn set_note_title(&mut self, index: usize, title: String)
        requires
            index < old(self).notes@.len(),
        ensures
            final(self).notes@.len() == old(self).notes@.len(),
            forall|i: int| 0 <= i < old(self).notes@.len() && i != index ==> #[trigger] final(self).notes@[i] == old(self).notes@[i],
            final(self).notes@[index as int].title == title,
            final(self).notes@[index as int].path == old(self).notes@[index as int].path,
            final(self).notes@[index as int].content == old(self).notes@[index as int].content,
            final(self).notes@[index as int].tags == old(self).notes@[index as int].tags,
            final(self).notes@[index as int].created == old(self).notes@[index as int].created,
            final(self).notes@[index as int].modified == old(self).notes@[index as int].modified,
            final(self).notes_dir == old(self).notes_dir,
            final(self).folders == old(self).folders,
            final(self).scan_warnings == old(self).scan_warnings,
    {
        self.notes[index].title = title;
    }

    /// Positions of the notes that live directly in `folder` (relative to
    /// the notes directory; empty for the root), in list order.
    pub fn notes_in_folder(&self, folder: &str) -> (r: Vec<usize>)
        ensures
            is_selection(
                r@,
                self.notes@.len() as int,
                |i: int| same_path(note_folder(self.notes@[i].path@, self.notes_dir@), folder@),
            ),
    {
        let mut r: Vec<usize> = Vec::new();
        let mut i: usize = 0;
        while i < self.notes.len()
            invariant
                i <= self.notes@.len(),
                forall|a: int, b: int| 0 <= a < b < r.len() ==> r@[a] < r@[b],
                forall|a: int| 0 <= a < r.len() ==> #[trigger] r@[a] < i && same_path(
                    note_folder(self.notes@[r@[a] as int].path@, self.notes_dir@),
                    folder@,
                ),
                forall|k: int|
                    0 <= k < i && same_path(note_folder(self.notes@[k].path@, self.notes_dir@), folder@)
                        ==> r@.contains(k as usize),
            decreases self.notes@.len() - i,
        {
            let relative = match path_parent(self.notes[i].path.as_str()) {
                Some(p) => match path_strip_prefix(p.as_str(), self.notes_dir.as_str()) {
                    Some(rel) => rel,
                    None => String::new(),
                },
                None => String::new(),
            };
            let ghost old_r = r@;
            if paths_equal(relative.as_str(), folder) {
                r.push(i);
            }
            proof {
                assert(relative@ == note_folder(self.notes@[i as int].path@, self.notes_dir@));
                assert forall|k: int|
                    0 <= k < i + 1 && same_path(note_folder(self.notes@[k].path@, self.notes_dir@), folder@)
                        implies r@.contains(k as usize) by {
                    if k < i {
                        let w = choose|w: int| 0 <= w < old_r.len() && old_r[w] == k as usize;
                        assert(r@[w] == k as usize);
                    } else {
                        assert(r@[r.len() - 1] == i);
                    }
                }
            }
            i = i + 1;
        }
        r
    }

    /// Names of the immediate subfolders of `folder`, sorted.
    pub fn subfolders_of(&self, folder: &str) -> (r: Vec<String>)
        ensures
            is_subfolder_list(r@, self.folders@, folder@),
    {
        let n = self.folders.len();
        let mut names: Vec<String> = Vec::new();
        let mut keys: Vec<Vec<i64>> = Vec::new();
        let mut sel: Vec<usize> = Vec::new();
        let ghost allkeys = subfolder_keys(self.folders@);
        let mut i: usize = 0;
        while i < n
            invariant
                n == self.folders@.len(),
                allkeys == subfolder_keys(self.folders@),
                i <= n,
                names.len() == i,
                keys.len() == i,
                forall|q: int| 0 <= q < i ==> #[trigger] names@[q]@ == folder_name(self.folders@[q]@),
                forall|q: int| 0 <= q < i ==> key_ints(#[trigger] keys@[q]@) == allkeys[q],
                forall|a: int, b: int| 0 <= a < b < sel.len() ==> sel@[a] < sel@[b],
                forall|a: int| 0 <= a < sel.len() ==> #[trigger] sel@[a] < i && is_child_folder(
                    self.folders@[sel@[a] as int]@,
                    folder@,
                ),
                forall|k: int| 0 <= k < i && is_child_folder(self.folders@[k]@, folder@) ==> sel@.contains(k as usize),
            decreases n - i,
        {
            let f = self.folders[i].as_str();
            let name = match path_file_name(f) {
                Some(nm) => nm,
                None => String::new(),
            };
            let is_child = match path_parent(f) {
                Some(p) => paths_equal(p.as_str(), folder) && path_file_name(f).is_some(),
                None => false,
            };
            let key = code_point_key(name.as_str());
            let ghost old_sel = sel@;
            if is_child {
                sel.push(i);
            }
            names.push(name);
            keys.push(key);
            proof {
                assert(is_child == is_child_folder(self.folders@[i as int]@, folder@));
                assert forall|k: int| 0 <= k < i + 1 && is_child_folder(self.folders@[k]@, folder@) implies sel@.contains(k as usize) by {
                    if k < i {
                        let w = choose|w: int| 0 <= w < old_sel.len() && old_sel[w] == k as usize;
                        assert(sel@[w] == k as usize);
                    } else {
                        assert(sel@[sel.len() - 1] == i);
                    }
                }
            }
            i = i + 1;
        }
        assert(keys_ints(keys@) =~= allkeys);
        let ghost selected = sel@;
        assert forall|q: int| 0 <= q < selected.len() implies #[trigger] selected[q] < keys.len() by {}
        stable_sort_by_keys(sel.as_mut_slice(), &keys, false);
        let ghost order = sel@;
        let mut r: Vec<String> = Vec::new();
        let mut m: usize = 0;
        while m < sel.len()
            invariant
                sel@ == order,
                names.len() == n,
                forall|q: int| 0 <= q < n ==> #[trigger] names@[q]@ == folder_name(self.folders@[q]@),
                is_stable_sort(order, selected, allkeys, false),
                order.len() == selected.len(),
                forall|q: int| 0 <= q < selected.len() ==> #[trigger] selected[q] < n,
                m <= sel.len(),
                r.len() == m,
                forall|q: int| 0 <= q < m ==> #[trigger] r@[q]@ == folder_name(self.folders@[order[q] as int]@),
            decreases sel.len() - m,
        {
            proof {
                let p = choose|p: Seq<int>| stable_sort_witness(order, selected, p, allkeys, false);
                assert(order[m as int] == selected[p[m as int]]);
            }
            r.push(names[sel[m]].clone());
            m = m + 1;
        }
        assert(is_selection(selected, n as int, |i: int| is_child_folder(self.folders@[i]@, folder@)));
        r
    }

    /// Adds a folder and re-sorts the folder list.
    pub fn add_folder(&mut self, relative_path: String)
        ensures
            final(self).notes == old(self).notes,
            final(self).notes_dir == old(self).notes_dir,
            final(self).scan_warnings == old(self).scan_warnings,
            is_folder_sort(final(self).folders@, old(self).folders@.push(relative_path)),
            final(self).folders@.len() == old(self).folders@.len() + 1,
    {
        self.folders.push(relative_path);
        sort_folders(&mut self.folders);
    }

    /// Removes every folder equal (as a path) to `relative_path`.
    pub fn remove_folder(&mut self, relative_path: &str)
        ensures
            final(self).notes == old(self).notes,
            final(self).notes_dir == old(self).notes_dir,
            final(self).scan_warnings == old(self).scan_warnings,
            is_folder_removal(final(self).folders@, old(self).folders@, relative_path@),
            final(self).folders@.len() <= old(self).folders@.len(),
    {
        let ghost orig = self.folders@;
        let mut kept: Vec<String> = Vec::new();
        let mut sel: Vec<usize> = Vec::new();
        let mut i: usize = 0;
        while i < self.folders.len()
            invariant
                self.folders@ == orig,
                i <= orig.len(),
                kept.len() == sel.len(),
                forall|a: int, b: int| 0 <= a < b < sel.len() ==> sel@[a] < sel@[b],
                forall|a: int| 0 <= a < sel.len() ==> #[trigger] sel@[a] < i && !same_path(orig[sel@[a] as int]@, relative_path@),
                forall|k: int| 0 <= k < i && !same_path(orig[k]@, relative_path@) ==> sel@.contains(k as usize),
                forall|q: int| 0 <= q < kept.len() ==> #[trigger] kept@[q] == orig[sel@[q] as int],
            decreases orig.len() - i,
        {
            let ghost old_sel = sel@;
            if !paths_equal(self.folders[i].as_str(), relative_path) {
                kept.push(self.folders[i].clone());
                sel.push(i);
            }
            proof {
                assert forall|k: int| 0 <= k < i + 1 && !same_path(orig[k]@, relative_path@) implies sel@.contains(k as usize) by {
                    if k < i {
                        let w = choose|w: int| 0 <= w < old_sel.len() && old_sel[w] == k as usize;
                        assert(sel@[w] == k as usize);
                    } else {
                        assert(sel@[sel.len() - 1] == i);
                    }
                }
            }
            i = i + 1;
        }
        self.folders = kept;
        assert(is_selection(sel@, orig.len() as int, |i: int| !same_path(orig[i]@, relative_path@)));
        proof {
            crate::order::lemma_selection_len(sel@, orig.len() as int, |i: int| !same_path(orig[i]@, relative_path@));
        }
        assert(picks(self.folders@, orig, sel@));
    }

    /// The folder list offered when moving a note: the root (empty path)
    /// first, then every folder.
    pub fn all_folder_paths(&self) -> (r: Vec<String>)
        ensures
            r@.len() == self.folders@.len() + 1,
            r@[0]@.len() == 0,
            forall|i: int| 0 <= i < self.folders@.len() ==> #[trigger] r@[i + 1] == self.folders@[i],
    {
        let mut r: Vec<String> = Vec::new();
        r.push(String::new());
        let mut i: usize = 0;
        while i < self.folders.len()
            invariant
                i <= self.folders@.len(),
                r@.len() == i + 1,
                r@[0]@.len() == 0,
                forall|q: int| 0 <= q < i ==> #[trigger] r@[q + 1] == self.folders@[q],
            decreases self.folders@.len() - i,
        {
            r.push(self.folders[i].clone());
            i = i + 1;
        }
        r
    }

    /// Where the note at `index` goes when moved to `target_folder`: the
    /// notes directory joined with the folder and the note's file name.
    /// `None` when the note's path has no file name.
    pub fn move_destination(&self, index: usize, target_folder: &str) -> (r: Option<String>)
        requires
            index < self.notes@.len(),
        ensures
            match file_name_of(self.notes@[index as int].path@) {
                Some(name) => r matches Some(p) && p@ == joined_path(joined_path(self.notes_dir@, target_folder@), name),
                None => r is None,
            },
    {
        match path_file_name(self.notes[index].path.as_str()) {
            Some(name) => {
                let dir = join_path(self.notes_dir.as_str(), target_folder);
                Some(join_path(dir.as_str(), name.as_str()))
            },
            None => None,
        }
    }
}

/// Appends the decimal representation of a `usize` to `s`.
pub fn push_decimal_usize(s: &mut String, n: usize)
    ensures
        final(s)@ == old(s)@ + crate::note::decimal(n as nat),
    decreases n,
{
    if n >= 10 {
        push_decimal_usize(s, n / 10);
    }
    let d = (n % 10) as u32;
    let ghost mid = s@;
    push_decimal(s, d);
    proof {
        assert(crate::note::decimal(d as nat) =~= seq![crate::note::digit_char(d as nat)]);
        if n >= 10 {
            assert(crate::note::decimal(n as nat) =~= crate::note::decimal((n / 10) as nat).push(
                crate::note::digit_char((n % 10) as nat),
            ));
        }
    }
}

} // verus!
