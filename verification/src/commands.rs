//! Completing the file-system commands of the state machine once the event
//! loop has done the work on disk, and keeping loaded note bodies.
use vstd::prelude::*;
use crate::app::{App, AppView, AppAction, AppMode, concat};
use crate::actions::moved_status;
use crate::browse::{refiltered, sizes_ok, preview_ok};
use crate::note::{Note, decimal};
use crate::note_manager::{NoteManager, is_folder_sort, is_folder_removal, push_decimal_usize};

verus! {

/// The status after a rescan that skipped `skipped` notes.
pub open spec fn refresh_status(skipped: nat) -> Seq<char> {
    if skipped == 0 {
        "Refreshed from disk"@
    } else {
        "Refreshed — "@ + decimal(skipped) + " note(s) skipped"@
    }
}

/// `b` is `a` with the note at `index` changed to `n`.
pub open spec fn note_replaced(a: NoteManager, b: NoteManager, index: int, n: Note) -> bool {
    &&& b.notes@ == a.notes@.update(index, n)
    &&& b.notes_dir == a.notes_dir
    &&& b.folders == a.folders
    &&& b.scan_warnings == a.scan_warnings
}

/// `m` is the note `n` with a new title, path and loaded body.
pub open spec fn renamed_note(n: Note, m: Note, title: Seq<char>, path: Seq<char>, body: Seq<char>) -> bool {
    &&& m.title@ == title
    &&& m.path@ == path
    &&& m.content matches Some(c) && c@ == body
    &&& m.tags == n.tags
    &&& m.created == n.created
    &&& m.modified == n.modified
}

impl App {
    /// After a rescan of the notes directory: takes the notes, folders and
    /// warnings found, shows the display again and reports the rescan.
    pub fn finish_rescan(&mut self, notes: Vec<Note>, folders: Vec<String>, warnings: Vec<String>)
        requires
            notes@.len() + folders@.len() < usize::MAX,
        ensures
            final(self).note_manager.notes_dir == old(self).note_manager.notes_dir,
            final(self).note_manager.notes@ == notes@,
            final(self).note_manager.scan_warnings@ == warnings@,
            is_folder_sort(final(self).note_manager.folders@, folders@),
            refiltered(
                (AppView {
                    note_manager: final(self).note_manager,
                    status_message: Some(refresh_status(warnings@.len())),
                    ..old(self)@
                }),
                *final(self),
                old(self).state.selected_index,
            ),
    {
        let skipped = warnings.len();
        self.note_manager.set_scan_results(notes, folders, warnings);
        self.refilter();
        let msg = if skipped == 0 {
            String::from_str("Refreshed from disk")
        } else {
            let mut m = String::from_str("Refreshed — ");
            push_decimal_usize(&mut m, skipped);
            m.append(" note(s) skipped");
            m
        };
        self.set_status(msg);
    }

    /// After the note typed into the create dialog was written to disk:
    /// lists it, shows the display again, reports it and opens it.
    pub fn finish_create_note(&mut self, note: Note) -> (r: AppAction)
        requires
            old(self).note_manager.notes@.len() + old(self).note_manager.folders@.len() + 1 < usize::MAX,
        ensures
            final(self).note_manager.notes@ == old(self).note_manager.notes@.push(note),
            refiltered(
                (AppView {
                    note_manager: final(self).note_manager,
                    status_message: Some("Created: "@ + old(self).state.input_buffer@),
                    ..crate::actions::in_mode(old(self)@, AppMode::Normal)
                }),
                *final(self),
                old(self).state.selected_index,
            ),
            r == AppAction::OpenEditor(note.path),
    {
        let path = note.path.clone();
        self.note_manager.add_note(note);
        self.refilter();
        self.state.mode = AppMode::Normal;
        let msg = concat("Created: ", self.state.input_buffer.as_str());
        self.set_status(msg);
        AppAction::OpenEditor(path)
    }

    /// After the note at `index` was renamed on disk to `title` (its body
    /// `body` rewritten under it, the file now at `path`): records the new
    /// title, path and body, shows the display again and reports it.
    pub fn finish_rename(&mut self, index: usize, title: String, path: String, body: String)
        requires
            index < old(self).note_manager.notes@.len(),
            sizes_ok(old(self).note_manager),
        ensures
            exists|m: Note|
                #[trigger] note_replaced(old(self).note_manager, final(self).note_manager, index as int, m)
                    && renamed_note(old(self).note_manager.notes@[index as int], m, title@, path@, body@),
            refiltered(
                (AppView {
                    note_manager: final(self).note_manager,
                    status_message: Some("Renamed to: "@ + title@),
                    ..crate::actions::in_mode(old(self)@, AppMode::Normal)
                }),
                *final(self),
                old(self).state.selected_index,
            ),
    {
        let ghost before = self.note_manager;
        let msg = concat("Renamed to: ", title.as_str());
        self.note_manager.set_content(index, body);
        self.note_manager.set_note_title(index, title);
        self.note_manager.set_note_path(index, path);
        proof {
            let m = self.note_manager.notes@[index as int];
            assert(self.note_manager.notes@ =~= before.notes@.update(index as int, m));
            assert(note_replaced(before, self.note_manager, index as int, m));
        }
        self.refilter();
        self.state.mode = AppMode::Normal;
        self.set_status(msg);
    }

    /// After the note at `index` was deleted from disk: drops it, shows the
    /// display again and reports it.
    pub fn finish_delete(&mut self, index: usize)
        requires
            index < old(self).note_manager.notes@.len(),
            sizes_ok(old(self).note_manager),
        ensures
            final(self).note_manager.notes@ == old(self).note_manager.notes@.remove(index as int),
            final(self).note_manager.folders == old(self).note_manager.folders,
            refiltered(
                (AppView {
                    note_manager: final(self).note_manager,
                    status_message: Some("Deleted: "@ + old(self).note_manager.notes@[index as int].title@),
                    ..crate::actions::in_mode(old(self)@, AppMode::Normal)
                }),
                *final(self),
                old(self).state.selected_index,
            ),
    {
        let msg = concat("Deleted: ", self.note_manager.notes[index].title.as_str());
        self.note_manager.remove_note(index);
        self.refilter();
        self.state.mode = AppMode::Normal;
        self.set_status(msg);
    }

    /// After the note at `index` was moved on disk to `destination` in the
    /// folder `target`: records the path, shows the display again and
    /// reports it.
    pub fn finish_move(&mut self, index: usize, destination: String, target: &str)
        requires
            index < old(self).note_manager.notes@.len(),
            sizes_ok(old(self).note_manager),
        ensures
            final(self).note_manager.notes@.len() == old(self).note_manager.notes@.len(),
            final(self).note_manager.notes@[index as int].path == destination,
            forall|i: int|
                0 <= i < old(self).note_manager.notes@.len() && i != index
                    ==> #[trigger] final(self).note_manager.notes@[i] == old(self).note_manager.notes@[i],
            refiltered(
                (AppView {
                    note_manager: final(self).note_manager,
                    status_message: Some(moved_status(target@)),
                    ..crate::actions::in_mode(old(self)@, AppMode::Normal)
                }),
                *final(self),
                old(self).state.selected_index,
            ),
    {
        self.note_manager.set_note_path(index, destination);
        let msg = if target.unicode_len() == 0 {
            String::from_str("Moved to: (root)")
        } else {
            concat("Moved to: ", target)
        };
        proof {
            reveal_strlit("Moved to: (root)");
            reveal_strlit("Moved to: ");
            reveal_strlit("(root)");
            assert(msg@ =~= moved_status(target@));
        }
        self.set_status(msg);
        self.refilter();
        self.state.mode = AppMode::Normal;
    }

    /// After the folder `path` (typed as `name`) was created on disk:
    /// lists it, shows the display again and reports it.
    pub fn finish_create_folder(&mut self, path: String, name: &str)
        requires
            old(self).note_manager.notes@.len() + old(self).note_manager.folders@.len() + 1 < usize::MAX,
        ensures
            final(self).note_manager.notes == old(self).note_manager.notes,
            is_folder_sort(final(self).note_manager.folders@, old(self).note_manager.folders@.push(path)),
            refiltered(
                (AppView {
                    note_manager: final(self).note_manager,
                    status_message: Some("Folder created: "@ + name@),
                    ..crate::actions::in_mode(old(self)@, AppMode::Normal)
                }),
                *final(self),
                old(self).state.selected_index,
            ),
    {
        self.note_manager.add_folder(path);
        self.refilter();
        self.set_status(concat("Folder created: ", name));
        self.state.mode = AppMode::Normal;
    }

    /// After an attempt to delete the folder `path` (shown as `name`): on
    /// success drops it, shows the display again and reports it; on failure
    /// reports the error. The dialog closes either way.
    pub fn finish_delete_folder(&mut self, path: &str, name: &str, result: Result<(), String>)
        requires
            sizes_ok(old(self).note_manager),
        ensures
            match result {
                Ok(()) => {
                    &&& final(self).note_manager.notes == old(self).note_manager.notes
                    &&& is_folder_removal(final(self).note_manager.folders@, old(self).note_manager.folders@, path@)
                    &&& refiltered(
                        (AppView {
                            note_manager: final(self).note_manager,
                            status_message: Some("Deleted folder: "@ + name@),
                            ..crate::actions::in_mode(old(self)@, AppMode::Normal)
                        }),
                        *final(self),
                        old(self).state.selected_index,
                    )
                },
                Err(e) => final(self)@ == (AppView {
                    status_message: Some("Cannot delete: "@ + e@),
                    ..crate::actions::in_mode(old(self)@, AppMode::Normal)
                }),
            },
    {
        match result {
            Ok(()) => {
                self.note_manager.remove_folder(path);
                self.set_status(concat("Deleted folder: ", name));
                self.refilter();
            },
            Err(e) => {
                self.set_status(concat("Cannot delete: ", e.as_str()));
            },
        }
        self.state.mode = AppMode::Normal;
    }

    /// Renders the selected note's loaded body into the preview, unless the
    /// preview already holds that body rendered at that width.
    pub fn ensure_markdown_cache(&mut self, width: u16)
        requires
            old(self).wf(),
        ensures
            match old(self).selected_real() {
                Some(i) => match old(self).note_manager.notes@[i as int].content {
                    Some(c) => {
                        let h = crate::app::text_hash(c@);
                        if old(self).state.cached_markdown matches Some(m) && m.content_hash == h && m.rendered_width == width {
                            *final(self) == *old(self)
                        } else {
                            &&& final(self)@ == (AppView { cached_markdown: final(self)@.cached_markdown, ..old(self)@ })
                            &&& final(self).state.cached_markdown matches Some(m) && m.content_hash == h
                                && m.rendered_width == width && crate::markdown::lines_view(m.lines@)
                                == crate::render::markdown_lines(c@, width, old(self).current_theme@)
                        }
                    },
                    None => *final(self) == *old(self),
                },
                None => *final(self) == *old(self),
            },
    {
        let i = match self.selected_note_real_index() {
            Some(i) => i,
            None => return,
        };
        let content = match &self.note_manager.notes[i].content {
            Some(c) => c,
            None => return,
        };
        let h = crate::app::hash_string(content.as_str());
        if let Some(m) = &self.state.cached_markdown {
            if m.content_hash == h && m.rendered_width == width {
                return;
            }
        }
        let lines = crate::render::render_markdown(content.as_str(), width, &self.current_theme);
        self.state.cached_markdown = Some(crate::app::MarkdownCache { content_hash: h, rendered_width: width, lines });
    }

    /// The selected note, when its body has not been loaded yet.
    pub fn content_to_load(&self) -> (r: Option<usize>)
        ensures
            r == (match self.selected_real() {
                Some(i) => if i < self.note_manager.notes@.len() && self.note_manager.notes@[i as int].content is None {
                    Some(i)
                } else {
                    None
                },
                None => None,
            }),
    {
        match self.selected_note_real_index() {
            Some(i) => {
                if i < self.note_manager.notes.len() && self.note_manager.notes[i].content.is_none() {
                    Some(i)
                } else {
                    None
                }
            },
            None => None,
        }
    }

    /// Keeps the body read from disk for the note at `index`.
    pub fn content_loaded(&mut self, index: usize, body: String)
        requires
            index < old(self).note_manager.notes@.len(),
        ensures
            final(self)@ == (AppView { note_manager: final(self).note_manager, ..old(self)@ }),
            final(self).note_manager.notes@.len() == old(self).note_manager.notes@.len(),
            final(self).note_manager.notes@[index as int].content == Some(body),
            forall|i: int|
                0 <= i < old(self).note_manager.notes@.len() && i != index
                    ==> #[trigger] final(self).note_manager.notes@[i] == old(self).note_manager.notes@[i],
    {
        self.note_manager.set_content(index, body);
    }

    /// Reports that the body of the selected note could not be read.
    pub fn load_failed(&mut self, error: &str)
        ensures
            final(self)@ == (AppView { status_message: Some("Failed to load note: "@ + error@), ..old(self)@ }),
    {
        self.set_status(concat("Failed to load note: ", error));
    }

    /// After the editor closed on the note at `real_idx`: takes the note as
    /// reloaded from disk (when it is still listed) and brings the preview
    /// in line with the selection; the rendered preview is dropped.
    pub fn after_editor(&mut self, real_idx: usize, reloaded: Note)
        ensures
            real_idx < old(self).note_manager.notes@.len() ==> note_replaced(
                old(self).note_manager,
                final(self).note_manager,
                real_idx as int,
                reloaded,
            ),
            real_idx >= old(self).note_manager.notes@.len() ==> final(self).note_manager == old(self).note_manager,
            final(self)@ == (AppView {
                note_manager: final(self).note_manager,
                cached_markdown: None,
                ..old(self)@
            }),
    {
        if real_idx < self.note_manager.notes.len() {
            self.note_manager.replace_note(real_idx, reloaded);
            self.load_selected_content();
        }
        self.invalidate_markdown_cache();
    }
}

} // verus!
