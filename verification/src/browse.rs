//! Keeping the displayed folders and notes in step with the filters: the
//! rebuilt list, the clamped selection and the folder preview.
use vstd::prelude::*;
use std::fmt::Write;
use crate::app::{App, AppView, MarkdownCache};
use crate::markdown::{Line, SpanView, plain_line, plain_style, lines_view};
use crate::note::{Note, Timestamp};
use crate::note_manager::{NoteManager, is_subfolder_list, note_folder};
use crate::order::{
    is_selection, retain_members, all_positions, lemma_selection_members, lemma_selection_equiv,
    lemma_stable_sort_members, lemma_selection_len, stable_sort_witness,
};
use crate::paths::{same_path, joined_path, join_path, path_parent, parent_of};
use crate::search::{best_score, fuzzy_search, is_ranking};
use crate::sort::sort_notes;
use crate::tags::{filter_by_tag, note_has_tag};
use crate::text::{str_eq, push_char};

verus! {

/// The note and folder counts leave room for the folder list, the parent
/// entry and a count of displayed items in a `usize`.
pub open spec fn sizes_ok(nm: NoteManager) -> bool {
    nm.notes@.len() + nm.folders@.len() < usize::MAX
}

/// The selection index kept within `count` displayed items (0 when empty).
pub open spec fn clamped(sel: usize, count: int) -> usize {
    if count == 0 {
        0
    } else if sel > count - 1 {
        (count - 1) as usize
    } else {
        sel
    }
}

/// The folder a folder entry leads to from `current`: its parent for
/// `..`, otherwise the entry inside `current`.
pub open spec fn entry_path(current: Seq<char>, name: Seq<char>) -> Seq<char> {
    if name == ".."@ {
        match parent_of(current) {
            Some(p) => p,
            None => Seq::empty(),
        }
    } else {
        joined_path(current, name)
    }
}

/// The preview line of a subfolder: a folder icon, the name and `/`.
pub open spec fn folder_line(sub: Seq<char>) -> Seq<char> {
    seq!['\u{1F4C1}', ' '] + sub + seq!['/']
}

/// How the preview line of a note starts: its title, then the date.
pub open spec fn note_line_prefix(title: Seq<char>) -> Seq<char> {
    "  "@ + title + " | "@
}

/// A line of one unstyled run.
pub open spec fn plain(text: Seq<char>) -> Seq<SpanView> {
    seq![SpanView { content: text, style: plain_style() }]
}

/// `lines` previews a folder with the subfolders `subs` and the notes at
/// `idx`: one line per subfolder, then one per note (title, then its
/// modification date), or `(empty)`.
pub open spec fn is_preview(lines: Seq<Seq<SpanView>>, subs: Seq<String>, idx: Seq<usize>, notes: Seq<Note>) -> bool {
    let total = subs.len() + idx.len();
    &&& lines.len() == (if total == 0 { 1 } else { total })
    &&& total == 0 ==> lines[0] == plain("(empty)"@)
    &&& forall|k: int| 0 <= k < subs.len() ==> lines[k] == plain(folder_line(#[trigger] subs[k]@))
    &&& forall|k: int|
        0 <= k < idx.len() ==> {
            let l = lines[subs.len() + k];
            &&& l.len() == 1
            &&& l[0].style == plain_style()
            &&& note_line_prefix(notes[#[trigger] idx[k] as int].title@).is_prefix_of(l[0].content)
        }
}

/// The notes that live directly in `folder`.
pub open spec fn in_folder(nm: NoteManager, folder: Seq<char>, i: int) -> bool {
    same_path(note_folder(nm.notes@[i].path@, nm.notes_dir@), folder)
}

/// `c` previews the folder at `path`.
pub open spec fn previews_folder(c: MarkdownCache, nm: NoteManager, path: Seq<char>) -> bool {
    &&& c.content_hash == 0
    &&& c.rendered_width == 0
    &&& exists|subs: Seq<String>, idx: Seq<usize>|
        #![trigger is_preview(lines_view(c.lines@), subs, idx, nm.notes@)]
        is_subfolder_list(subs, nm.folders@, path) && is_selection(
            idx,
            nm.notes@.len() as int,
            |i: int| in_folder(nm, path, i),
        ) && is_preview(lines_view(c.lines@), subs, idx, nm.notes@)
}

/// With a folder entry selected the preview shows that folder; otherwise
/// there is no preview yet.
pub open spec fn preview_ok(a: App) -> bool {
    match a.selected_folder() {
        Some(name) => a.state.cached_markdown matches Some(c) && previews_folder(
            c,
            a.note_manager,
            entry_path(a.state.current_folder@, name),
        ),
        None => a.state.cached_markdown is None,
    }
}

/// The displayed lists match the filters, the selection is `prev` clamped
/// to them, the preview is scrolled to the top and follows the selection.
pub open spec fn refreshed(a: App, prev: usize) -> bool {
    &&& a.is_display_list(a.state.filtered_indices@)
    &&& a.is_folder_entries(a.state.display_folders@)
    &&& a.wf()
    &&& a.state.selected_index == clamped(prev, a.display_count())
    &&& a.state.scroll_offset == 0
    &&& preview_ok(a)
}

/// Nothing changed but the displayed lists, the selection, the scroll
/// offset and the preview.
pub open spec fn same_but_display(a: App, b: App) -> bool {
    &&& a.note_manager == b.note_manager
    &&& a.config == b.config
    &&& a.config_path == b.config_path
    &&& a.current_theme == b.current_theme
    &&& a.available_themes == b.available_themes
    &&& a.sort_menu_index == b.sort_menu_index
    &&& a.tag_filter_index == b.tag_filter_index
    &&& a.theme_menu_index == b.theme_menu_index
    &&& a.move_folder_index == b.move_folder_index
    &&& a.should_quit == b.should_quit
    &&& a.dirty == b.dirty
    &&& a.state.search_query == b.state.search_query
    &&& a.state.active_tag_filter == b.state.active_tag_filter
    &&& a.state.sort_mode == b.state.sort_mode
    &&& a.state.sort_ascending == b.state.sort_ascending
    &&& a.state.focus == b.state.focus
    &&& a.state.mode == b.state.mode
    &&& a.state.input_buffer == b.state.input_buffer
    &&& a.state.status_message == b.state.status_message
    &&& a.state.current_folder == b.state.current_folder
}

/// `v` with the displayed lists, selection, scroll offset and preview of `b`.
pub open spec fn with_display(v: AppView, b: AppView) -> AppView {
    AppView {
        filtered_indices: b.filtered_indices,
        display_folders: b.display_folders,
        selected_index: b.selected_index,
        scroll_offset: b.scroll_offset,
        cached_markdown: b.cached_markdown,
        ..v
    }
}

/// `b` is the state `mid` with its display rebuilt from the filters,
/// starting from the selection `prev`.
pub open spec fn refiltered(mid: AppView, b: App, prev: usize) -> bool {
    b@ == with_display(mid, b@) && refreshed(b, prev)
}

/// Equal fields but for the display give equal views but for the display.
pub proof fn lemma_display_view(a: App, b: App)
    requires
        same_but_display(a, b),
    ensures
        b@ == with_display(a@, b@),
{
}

/// The parent of a folder, or the root.
pub open spec fn parent_or_root(folder: Seq<char>) -> Seq<char> {
    match parent_of(folder) {
        Some(p) => p,
        None => Seq::empty(),
    }
}

/// Leaving the browsed folder for its parent: nothing happens at the root;
/// elsewhere the parent is browsed from its first item.
pub open spec fn went_up(a: App, b: App) -> bool {
    if a.state.current_folder@.len() == 0 {
        b == a
    } else {
        refiltered((AppView { current_folder: parent_or_root(a.state.current_folder@), ..a@ }), b, 0)
    }
}

/// `b` is `a` with its displayed notes sorted again by the sort mode.
pub open spec fn resorted(a: App, b: App) -> bool {
    &&& b@ == (AppView { filtered_indices: b@.filtered_indices, ..a@ })
    &&& crate::order::is_stable_sort(
        b.state.filtered_indices@,
        a.state.filtered_indices@,
        crate::sort::note_sort_keys(a.note_manager.notes@, a.state.sort_mode),
        !a.state.sort_ascending,
    )
}

/// Nothing changed but the preview.
pub open spec fn same_but_preview(a: App, b: App) -> bool {
    &&& same_but_display(a, b)
    &&& a.state.filtered_indices == b.state.filtered_indices
    &&& a.state.display_folders == b.state.display_folders
    &&& a.state.selected_index == b.state.selected_index
    &&& a.state.scroll_offset == b.state.scroll_offset
}

/// `chrono`: formats an instant as a date in the local time zone with a
/// strftime-style format, writing into a string; `None` when chrono reports
/// a formatting error (a format it cannot read) or the instant is out of
/// its range. The time zone comes from the environment, so nothing is
/// claimed of the text.
#[verifier::external_body]
pub(crate) fn format_local_date(t: Timestamp, format: &str) -> (r: Option<String>) {
    let dt = chrono::DateTime::from_timestamp(t.secs, t.nanos)?;
    let mut out = String::new();
    match write!(out, "{}", dt.with_timezone(&chrono::Local).format(format)) {
        Ok(()) => Some(out),
        Err(_) => None,
    }
}

/// The preview of a folder: its subfolders, then its notes with their
/// modification dates, or `(empty)`.
fn folder_preview(nm: &NoteManager, path: &str) -> (r: MarkdownCache)
    ensures
        previews_folder(r, *nm, path@),
{
    let subs = nm.subfolders_of(path);
    let idx = nm.notes_in_folder(path);
    proof {
        lemma_selection_equiv(
            idx@,
            nm.notes@.len() as int,
            |i: int| same_path(note_folder(nm.notes@[i].path@, nm.notes_dir@), path@),
            |i: int| in_folder(*nm, path@, i),
        );
    }
    let mut lines: Vec<Line> = Vec::new();
    let mut k: usize = 0;
    while k < subs.len()
        invariant
            k <= subs@.len(),
            lines@.len() == k,
            forall|j: int| 0 <= j < k ==> lines_view(lines@)[j] == plain(folder_line(#[trigger] subs@[j]@)),
        decreases subs@.len() - k,
    {
        let mut s = String::new();
        push_char(&mut s, '\u{1F4C1}');
        push_char(&mut s, ' ');
        s.append(subs[k].as_str());
        push_char(&mut s, '/');
        assert(s@ =~= folder_line(subs@[k as int]@));
        lines.push(plain_line(s));
        k = k + 1;
    }
    let ghost nsubs = subs@.len();
    let mut j: usize = 0;
    while j < idx.len()
        invariant
            j <= idx@.len(),
            nsubs == subs@.len(),
            lines@.len() == nsubs + j,
            forall|i: int| 0 <= i < idx@.len() ==> #[trigger] idx@[i] < nm.notes@.len(),
            forall|q: int| 0 <= q < nsubs ==> lines_view(lines@)[q] == plain(folder_line(#[trigger] subs@[q]@)),
            forall|q: int|
                0 <= q < j ==> {
                    let l = lines_view(lines@)[nsubs + q];
                    &&& l.len() == 1
                    &&& l[0].style == plain_style()
                    &&& note_line_prefix(nm.notes@[#[trigger] idx@[q] as int].title@).is_prefix_of(l[0].content)
                },
        decreases idx@.len() - j,
    {
        let note = &nm.notes[idx[j]];
        let date = match format_local_date(note.modified, "%Y-%m-%d") {
            Some(d) => d,
            None => String::new(),
        };
        let mut s = String::new();
        s.append("  ");
        s.append(note.title.as_str());
        s.append(" | ");
        let ghost pre = s@;
        s.append(date.as_str());
        assert(pre =~= note_line_prefix(note.title@));
        assert(pre.is_prefix_of(s@)) by {
            assert(s@.take(pre.len() as int) =~= pre);
        }
        lines.push(plain_line(s));
        j = j + 1;
    }
    if lines.len() == 0 {
        lines.push(plain_line(String::from_str("(empty)")));
    }
    let r = MarkdownCache { content_hash: 0, rendered_width: 0, lines };
    assert(is_preview(lines_view(r.lines@), subs@, idx@, nm.notes@));
    r
}

impl App {
    /// Builds the preview of the selected folder entry and stores it as the
    /// rendered preview.
    fn build_folder_preview(&mut self, folder_name: &str)
        ensures
            same_but_preview(*old(self), *final(self)),
            final(self).state.cached_markdown matches Some(c) && previews_folder(
                c,
                old(self).note_manager,
                entry_path(old(self).state.current_folder@, folder_name@),
            ),
    {
        let path = if str_eq(folder_name, "..") {
            match path_parent(self.state.current_folder.as_str()) {
                Some(p) => p,
                None => String::new(),
            }
        } else {
            join_path(self.state.current_folder.as_str(), folder_name)
        };
        let preview = folder_preview(&self.note_manager, path.as_str());
        self.state.cached_markdown = Some(preview);
    }

    /// Brings the preview in line with the selection: a folder entry shows
    /// its contents; for a note the rendered preview is dropped (the body is
    /// loaded and rendered on demand).
    pub fn load_selected_content(&mut self)
        ensures
            same_but_preview(*old(self), *final(self)),
            preview_ok(*final(self)),
    {
        if self.state.selected_index < self.state.display_folders.len() {
            let name = self.state.display_folders[self.state.selected_index].clone();
            self.build_folder_preview(name.as_str());
        } else {
            self.state.cached_markdown = None;
        }
    }

    /// Rebuilds the displayed notes and folders from the filters: with a
    /// search or tag filter, the matching notes of all folders and no
    /// folder entries; otherwise the notes and subfolders of the browsed
    /// folder (and `..` away from the root). Then sorts, clamps the
    /// selection, scrolls to the top and refreshes the preview.
    #[verifier::spinoff_prover]
    pub fn refilter(&mut self)
        requires
            sizes_ok(old(self).note_manager),
        ensures
            same_but_display(*old(self), *final(self)),
            refreshed(*final(self), old(self).state.selected_index),
            refiltered(old(self)@, *final(self), old(self).state.selected_index),
    {
        let ghost start = *self;
        let n = self.note_manager.notes.len();
        let has_search = self.state.search_query.as_str().unicode_len() > 0;
        let has_tag = self.state.active_tag_filter.is_some();
        let ghost notes = self.note_manager.notes@;
        let ghost sc = self.config.ui.search_content;
        let ghost query = self.state.search_query@;
        let ghost p0 = |i: int| has_search || has_tag || in_folder(start.note_manager, start.state.current_folder@, i);
        let base = if has_search || has_tag {
            let all = all_positions(n);
            proof {
                lemma_selection_equiv(all@, n as int, |i: int| true, p0);
            }
            all
        } else {
            let v = self.note_manager.notes_in_folder(self.state.current_folder.as_str());
            proof {
                lemma_selection_equiv(
                    v@,
                    n as int,
                    |i: int| same_path(note_folder(notes[i].path@, start.note_manager.notes_dir@), start.state.current_folder@),
                    p0,
                );
            }
            v
        };
        let ghost tagged = |i: int| match start.state.active_tag_filter {
            Some(t) => note_has_tag(notes[i], t@),
            None => true,
        };
        let after_tag = match &self.state.active_tag_filter {
            Some(tag) => {
                let hits = filter_by_tag(self.note_manager.notes.as_slice(), tag.as_str());
                proof {
                    assert forall|x: int| 0 <= x < n implies (#[trigger] hits@.contains(x as usize) <==> tagged(x)) by {
                        lemma_selection_members(hits@, n as int, |i: int| note_has_tag(notes[i], tag@), x);
                    }
                }
                retain_members(&base, &hits, Ghost(n as int), Ghost(p0), Ghost(tagged))
            },
            None => {
                proof {
                    lemma_selection_equiv(base@, n as int, p0, |x: int| p0(x) && tagged(x));
                }
                base
            },
        };
        let ghost p1 = |x: int| p0(x) && tagged(x);
        let ghost searched = |i: int| query.len() > 0 ==> best_score(query, notes[i], sc) is Some;
        let mut indices = if has_search {
            let ranked = fuzzy_search(self.state.search_query.as_str(), self.note_manager.notes.as_slice(), self.config.ui.search_content);
            proof {
                let matched = choose|matched: Seq<usize>|
                    is_selection(matched, n as int, |i: int| best_score(query, notes[i], sc) is Some)
                        && crate::order::is_stable_sort(ranked@, matched, crate::search::score_keys(query, notes, sc), true);
                assert forall|x: int| 0 <= x < n implies (#[trigger] ranked@.contains(x as usize) <==> searched(x)) by {
                    lemma_stable_sort_members(ranked@, matched, crate::search::score_keys(query, notes, sc), true, x as usize);
                    lemma_selection_members(matched, n as int, |i: int| best_score(query, notes[i], sc) is Some, x);
                }
            }
            retain_members(&after_tag, &ranked, Ghost(n as int), Ghost(p1), Ghost(searched))
        } else {
            proof {
                lemma_selection_equiv(after_tag@, n as int, p1, |x: int| p1(x) && searched(x));
            }
            after_tag
        };
        let ghost sel = indices@;
        let ghost vis = crate::app::visible_pred(
            start.note_manager,
            start.state.current_folder@,
            query,
            crate::app::tag_view(start.state.active_tag_filter),
            sc,
        );
        proof {
            lemma_selection_equiv(sel, n as int, |x: int| p1(x) && searched(x), vis);
            lemma_selection_len(sel, n as int, vis);
        }
        sort_notes(indices.as_mut_slice(), self.note_manager.notes.as_slice(), self.state.sort_mode, self.state.sort_ascending);
        proof {
            let desc = !start.state.sort_ascending;
            let keys = crate::sort::note_sort_keys(notes, start.state.sort_mode);
            let p = choose|p: Seq<int>| #[trigger] stable_sort_witness(indices@, sel, p, keys, desc);
            assert forall|i: int| 0 <= i < indices@.len() implies #[trigger] indices@[i] < n by {
                assert(indices@[i] == sel[p[i]]);
            }
        }
        self.state.filtered_indices = indices;
        let folders = if has_search || has_tag {
            Vec::new()
        } else {
            let mut subs = self.note_manager.subfolders_of(self.state.current_folder.as_str());
            proof {
                let (s, o) = choose|s: Seq<usize>, o: Seq<usize>|
                    is_selection(s, self.note_manager.folders@.len() as int, |i: int| crate::note_manager::is_child_folder(self.note_manager.folders@[i]@, start.state.current_folder@))
                        && crate::order::is_stable_sort(o, s, crate::note_manager::subfolder_keys(self.note_manager.folders@), false)
                        && subs@.len() == o.len() && forall|k: int| 0 <= k < o.len() ==> #[trigger] subs@[k]@ == crate::note_manager::folder_name(self.note_manager.folders@[o[k] as int]@);
                lemma_selection_len(s, self.note_manager.folders@.len() as int, |i: int| crate::note_manager::is_child_folder(self.note_manager.folders@[i]@, start.state.current_folder@));
                let fk = crate::note_manager::subfolder_keys(self.note_manager.folders@);
                let w = choose|w: Seq<int>| #[trigger] stable_sort_witness(o, s, w, fk, false);
                assert(subs@.len() <= self.note_manager.folders@.len());
            }
            if self.state.current_folder.as_str().unicode_len() > 0 {
                let ghost before = subs@;
                subs.insert(0, String::from_str(".."));
                assert(subs@.skip(1) =~= before);
            }
            subs
        };
        self.state.display_folders = folders;
        assert(self.is_display_list(self.state.filtered_indices@)) by {
            assert(crate::order::is_stable_sort(
                self.state.filtered_indices@,
                sel,
                crate::sort::note_sort_keys(notes, start.state.sort_mode),
                !start.state.sort_ascending,
            ));
        }
        let max = self.total_display_count().saturating_sub(1);
        if self.state.selected_index > max {
            self.state.selected_index = max;
        }
        self.state.scroll_offset = 0;
        self.load_selected_content();
        proof {
            lemma_display_view(start, *self);
        }
    }

    /// Browses the parent folder from its first item (nothing at the root).
    pub fn navigate_parent_folder(&mut self)
        requires
            sizes_ok(old(self).note_manager),
        ensures
            went_up(*old(self), *final(self)),
    {
        if self.state.current_folder.as_str().unicode_len() == 0 {
            return;
        }
        let parent = match path_parent(self.state.current_folder.as_str()) {
            Some(p) => p,
            None => String::new(),
        };
        self.state.current_folder = parent;
        self.state.selected_index = 0;
        self.refilter();
    }

    /// Sorts the displayed notes again by the current sort mode and direction.
    pub fn resort(&mut self)
        requires
            old(self).wf(),
        ensures
            resorted(*old(self), *final(self)),
            final(self).wf(),
    {
        let ghost before = self.state.filtered_indices@;
        let mut indices: Vec<usize> = Vec::new();
        std::mem::swap(&mut indices, &mut self.state.filtered_indices);
        sort_notes(indices.as_mut_slice(), self.note_manager.notes.as_slice(), self.state.sort_mode, self.state.sort_ascending);
        proof {
            let desc = !self.state.sort_ascending;
            let keys = crate::sort::note_sort_keys(self.note_manager.notes@, self.state.sort_mode);
            let p = choose|p: Seq<int>| #[trigger] stable_sort_witness(indices@, before, p, keys, desc);
            assert forall|i: int| 0 <= i < indices@.len() implies #[trigger] indices@[i] < self.note_manager.notes@.len() by {
                assert(indices@[i] == before[p[i]]);
            }
        }
        self.state.filtered_indices = indices;
    }
}

} // verus!
