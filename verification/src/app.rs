//! The application state machine: modes, the displayed list of folders and
//! notes, navigation, and the commands that need the file system.
use vstd::prelude::*;
use std::hash::Hasher;
use crate::markdown::{Line, plain_line};
use crate::note::{Note, Timestamp};
use crate::note_manager::{NoteManager, is_subfolder_list, note_folder};
use crate::order::{is_selection, is_stable_sort, retain_members, lemma_stable_sort_members};
use crate::paths::{same_path, joined_path, join_path, path_parent, parent_of};
use crate::search::{best_score, fuzzy_search, is_ranking};
use crate::settings::{Config, opt_view};
use crate::sort::{note_sort_keys, sort_notes};
use crate::tags::{filter_by_tag, note_has_tag, tag_filter_items};
use crate::text::{str_eq, push_char};
use crate::theme::Theme;

verus! {

/// How the note list is sorted.
#[derive(Debug, Clone, Copy, PartialEq, Eq, Structural)]
pub enum SortMode {
    ByModified,
    ByCreated,
    ByTitle,
}

/// Which panel holds focus.
#[derive(Debug, Clone, Copy, PartialEq, Eq, Structural)]
pub enum PanelFocus {
    SidePanel,
    MainPanel,
}

/// Top-level mode: decides which key mapping is active and which overlay shows.
#[derive(Debug, Clone, Copy, PartialEq, Eq, Structural)]
pub enum AppMode {
    Normal,
    Search,
    TagFilter,
    SortMenu,
    CreateNote,
    ConfirmDelete,
    Help,
    Rename,
    ThemeMenu,
    MoveNote,
    CreateFolder,
    ConfirmDeleteFolder,
}

/// A semantic action produced from a key press.
#[derive(Debug, Clone, Copy, PartialEq, Eq, Structural)]
pub enum KeyAction {
    NavigateUp,
    NavigateDown,
    Select,
    Edit,
    Create,
    Delete,
    Search,
    TagFilter,
    Sort,
    Refresh,
    ToggleFocus,
    Cancel,
    Quit,
    Help,
    Rename,
    ScrollUp,
    ScrollDown,
    PageUp,
    PageDown,
    Home,
    End,
    Char(char),
    Backspace,
    ViewReadOnly,
    ThemeMenu,
    MoveNote,
    CreateFolder,
}

/// Rendered Markdown kept for the selected note (or a folder preview).
pub struct MarkdownCache {
    /// Hash of the rendered content (0 for a folder preview).
    pub content_hash: u64,
    /// Width the content was rendered at.
    pub rendered_width: u16,
    /// The rendered lines.
    pub lines: Vec<Line>,
}

/// The state the user interface shows.
pub struct AppState {
    /// Positions into the notes list of the displayed notes, in display order.
    pub filtered_indices: Vec<usize>,
    /// Selected item among the displayed folders, then notes.
    pub selected_index: usize,
    /// Current search query (empty: no search).
    pub search_query: String,
    /// Active tag filter.
    pub active_tag_filter: Option<String>,
    pub sort_mode: SortMode,
    /// Ascending (A-Z, oldest first) when true.
    pub sort_ascending: bool,
    pub focus: PanelFocus,
    pub mode: AppMode,
    /// Scroll offset of the preview.
    pub scroll_offset: usize,
    /// Text typed into the current dialog.
    pub input_buffer: String,
    /// Message shown in the status bar.
    pub status_message: Option<String>,
    /// Rendered preview of the selection.
    pub cached_markdown: Option<MarkdownCache>,
    /// Folder being browsed, relative to the notes directory (empty: root).
    pub current_folder: String,
    /// Folder entries shown above the notes.
    pub display_folders: Vec<String>,
}

impl Default for AppState {
    /// Nothing displayed, normal mode, newest modified first.
    fn default() -> (r: AppState)
        ensures
            r.filtered_indices@.len() == 0,
            r.selected_index == 0,
            r.search_query@.len() == 0,
            r.active_tag_filter is None,
            r.sort_mode == SortMode::ByModified,
            !r.sort_ascending,
            r.focus == PanelFocus::SidePanel,
            r.mode == AppMode::Normal,
            r.scroll_offset == 0,
            r.input_buffer@.len() == 0,
            r.status_message is None,
            r.cached_markdown is None,
            r.current_folder@.len() == 0,
            r.display_folders@.len() == 0,
    {
        AppState {
            filtered_indices: Vec::new(),
            selected_index: 0,
            search_query: String::new(),
            active_tag_filter: None,
            sort_mode: SortMode::ByModified,
            sort_ascending: false,
            focus: PanelFocus::SidePanel,
            mode: AppMode::Normal,
            scroll_offset: 0,
            input_buffer: String::new(),
            status_message: None,
            cached_markdown: None,
            current_folder: String::new(),
            display_folders: Vec::new(),
        }
    }
}

/// What the event loop must do after an action has been handled.
#[derive(Debug, PartialEq, Eq)]
pub enum AppAction {
    /// Nothing special: continue.
    Nothing,
    /// Open the given path in an external editor.
    OpenEditor(String),
    /// Open the given path in a read-only viewer.
    OpenViewer(String),
    /// Quit the application.
    Quit,
}

/// File-system work an action needs before it can finish. The event loop
/// performs it and reports back through the matching `finish_` method.
pub enum Effect {
    /// Nothing to do on disk; continue with this action.
    Done(AppAction),
    /// Rescan the notes directory, then call `finish_rescan`.
    Rescan,
    /// Create a note titled `title` in `folder`, then call `finish_create_note`.
    CreateNote { title: String, folder: String },
    /// Rename the note at `index` to `title`, then call `finish_rename`.
    RenameNote { index: usize, title: String },
    /// Delete the note at `index`, then call `finish_delete`.
    DeleteNote { index: usize },
    /// Move the note at `index` to `destination`, then call `finish_move`.
    MoveNote { index: usize, destination: String, target: String },
    /// Create the folder `path` (entered as `name`), then call `finish_create_folder`.
    CreateFolder { path: String, name: String },
    /// Delete the folder `path` (shown as `name`), then call `finish_delete_folder`.
    DeleteFolder { path: String, name: String },
    /// Save the configuration (best effort) and continue.
    SaveConfig,
    /// The action failed with this error.
    Fail(String),
}

/// The tag filter as text.
pub open spec fn tag_view(t: Option<String>) -> Option<Seq<char>> {
    opt_view(t)
}

/// Whether the note at position `i` is displayed: inside the browsed folder
/// (unless a search or tag filter is active, which spans all folders),
/// carrying the tag filter, and matching the search query.
pub open spec fn visible(
    notes: Seq<Note>,
    dir: Seq<char>,
    folder: Seq<char>,
    query: Seq<char>,
    tag: Option<Seq<char>>,
    search_content: bool,
    i: int,
) -> bool {
    &&& (query.len() > 0 || tag is Some || same_path(note_folder(notes[i].path@, dir), folder))
    &&& (tag matches Some(t) ==> note_has_tag(notes[i], t))
    &&& (query.len() > 0 ==> best_score(query, notes[i], search_content) is Some)
}

/// Visibility under these filters, as a predicate on positions.
pub open spec fn visible_pred(
    nm: NoteManager,
    folder: Seq<char>,
    query: Seq<char>,
    tag: Option<Seq<char>>,
    search_content: bool,
) -> spec_fn(int) -> bool {
    |i: int| visible(nm.notes@, nm.notes_dir@, folder, query, tag, search_content, i)
}

/// `filtered` lists the notes visible under these filters, sorted stably
/// by the sort mode (newest first or Z-A when `descending`).
pub open spec fn display_list(
    nm: NoteManager,
    folder: Seq<char>,
    query: Seq<char>,
    tag: Option<Seq<char>>,
    search_content: bool,
    mode: SortMode,
    descending: bool,
    filtered: Seq<usize>,
) -> bool {
    exists|sel: Seq<usize>|
        #![trigger is_stable_sort(filtered, sel, note_sort_keys(nm.notes@, mode), descending)]
        is_selection(sel, nm.notes@.len() as int, visible_pred(nm, folder, query, tag, search_content))
            && is_stable_sort(filtered, sel, note_sort_keys(nm.notes@, mode), descending)
}

/// The text `a` followed by `b`.
pub fn concat(a: &str, b: &str) -> (r: String)
    ensures
        r@ == a@ + b@,
{
    let mut r = String::from_str(a);
    r.append(b);
    r
}

/// `String::pop` (std): removes and returns the last character, if any.
#[verifier::external_body]
pub(crate) fn pop_char(s: &mut String) -> (r: Option<char>)
    ensures
        old(s)@.len() == 0 ==> r is None && final(s)@ == old(s)@,
        old(s)@.len() > 0 ==> r == Some(old(s)@.last()) && final(s)@ == old(s)@.drop_last(),
{
    s.pop()
}

/// The default hasher's hash of a text: the bytes of its UTF-8 encoding,
/// then `0xff`.
pub open spec fn text_hash(s: Seq<char>) -> u64 {
    <std::collections::hash_map::DefaultHasher as vstd::std_specs::hash::DefaultHasherAdditionalSpecFns>::spec_finish(
        seq![vstd::utf8::encode_utf8(s), seq![0xffu8]],
    )
}

/// Hashes a text with the standard library's default hasher, as the
/// bytes of its UTF-8 encoding followed by `0xff`.
pub fn hash_string(s: &str) -> (r: u64)
    ensures
        r == text_hash(s@),
{
    let mut hasher = std::collections::hash_map::DefaultHasher::new();
    hasher.write(s.as_bytes());
    let end: [u8; 1] = [0xff];
    hasher.write(&end);
    let r = hasher.finish();
    assert(end@ =~= seq![0xffu8]);
    assert(hasher@ =~= seq![vstd::utf8::encode_utf8(s@), seq![0xffu8]]);
    r
}

/// A copy of a theme.
pub(crate) fn clone_theme(t: &Theme) -> (r: Theme)
    ensures
        r@ == t@,
{
    let mut tags: Vec<crate::theme::Color> = Vec::new();
    let mut i: usize = 0;
    while i < t.tag_colors.len()
        invariant
            i <= t.tag_colors.len(),
            tags@ == t.tag_colors@.take(i as int),
        decreases t.tag_colors.len() - i,
    {
        tags.push(t.tag_colors[i]);
        assert(t.tag_colors@.take(i + 1) =~= t.tag_colors@.take(i as int).push(t.tag_colors@[i as int]));
        i = i + 1;
    }
    assert(t.tag_colors@.take(t.tag_colors.len() as int) =~= t.tag_colors@);
    Theme {
        name: t.name.clone(),
        fg_primary: t.fg_primary,
        fg_secondary: t.fg_secondary,
        accent: t.accent,
        highlight: t.highlight,
        success: t.success,
        error: t.error,
        bg_main: t.bg_main,
        bg_bar: t.bg_bar,
        bg_selection: t.bg_selection,
        fg_selection: t.fg_selection,
        tag_colors: tags,
    }
}

/// The application: notes, configuration, themes and the displayed state.
pub struct App {
    pub note_manager: NoteManager,
    pub config: Config,
    /// Where the configuration is saved, when it is.
    pub config_path: Option<String>,
    pub state: AppState,
    pub current_theme: Theme,
    /// Built-in themes, then the custom ones.
    pub available_themes: Vec<Theme>,
    pub sort_menu_index: usize,
    pub tag_filter_index: usize,
    pub theme_menu_index: usize,
    pub move_folder_index: usize,
    pub should_quit: bool,
    /// Whether the screen needs redrawing.
    pub dirty: bool,
}

/// The application as plain values: texts as character sequences, lists
/// as sequences.
pub struct AppView {
    pub note_manager: NoteManager,
    pub config: Config,
    pub config_path: Option<Seq<char>>,
    pub current_theme: crate::theme::ThemeView,
    pub available_themes: Seq<crate::theme::ThemeView>,
    pub sort_menu_index: usize,
    pub tag_filter_index: usize,
    pub theme_menu_index: usize,
    pub move_folder_index: usize,
    pub should_quit: bool,
    pub dirty: bool,
    pub filtered_indices: Seq<usize>,
    pub selected_index: usize,
    pub search_query: Seq<char>,
    pub active_tag_filter: Option<Seq<char>>,
    pub sort_mode: SortMode,
    pub sort_ascending: bool,
    pub focus: PanelFocus,
    pub mode: AppMode,
    pub scroll_offset: usize,
    pub input_buffer: Seq<char>,
    pub status_message: Option<Seq<char>>,
    pub cached_markdown: Option<MarkdownCache>,
    pub current_folder: Seq<char>,
    pub display_folders: Seq<String>,
}

impl View for App {
    type V = AppView;

    open spec fn view(&self) -> AppView {
        AppView {
            note_manager: self.note_manager,
            config: self.config,
            config_path: opt_view(self.config_path),
            current_theme: self.current_theme@,
            available_themes: self.available_themes@.map_values(|t: Theme| t@),
            sort_menu_index: self.sort_menu_index,
            tag_filter_index: self.tag_filter_index,
            theme_menu_index: self.theme_menu_index,
            move_folder_index: self.move_folder_index,
            should_quit: self.should_quit,
            dirty: self.dirty,
            filtered_indices: self.state.filtered_indices@,
            selected_index: self.state.selected_index,
            search_query: self.state.search_query@,
            active_tag_filter: opt_view(self.state.active_tag_filter),
            sort_mode: self.state.sort_mode,
            sort_ascending: self.state.sort_ascending,
            focus: self.state.focus,
            mode: self.state.mode,
            scroll_offset: self.state.scroll_offset,
            input_buffer: self.state.input_buffer@,
            status_message: opt_view(self.state.status_message),
            cached_markdown: self.state.cached_markdown,
            current_folder: self.state.current_folder@,
            display_folders: self.state.display_folders@,
        }
    }
}

impl App {
    /// Whether the note at position `i` is displayed in the current state.
    pub open spec fn shows(&self, i: int) -> bool {
        visible(
            self.note_manager.notes@,
            self.note_manager.notes_dir@,
            self.state.current_folder@,
            self.state.search_query@,
            tag_view(self.state.active_tag_filter),
            self.config.ui.search_content,
            i,
        )
    }

    /// `filtered` lists the displayed notes in sort order.
    pub open spec fn is_display_list(&self, filtered: Seq<usize>) -> bool {
        display_list(
            self.note_manager,
            self.state.current_folder@,
            self.state.search_query@,
            tag_view(self.state.active_tag_filter),
            self.config.ui.search_content,
            self.state.sort_mode,
            !self.state.sort_ascending,
            filtered,
        )
    }

    /// `display` lists the folder entries shown: none while searching or
    /// filtering; otherwise `..` (away from the root) and the subfolders.
    pub open spec fn is_folder_entries(&self, display: Seq<String>) -> bool {
        if self.state.search_query@.len() > 0 || self.state.active_tag_filter is Some {
            display.len() == 0
        } else if self.state.current_folder@.len() == 0 {
            is_subfolder_list(display, self.note_manager.folders@, self.state.current_folder@)
        } else {
            display.len() >= 1 && display[0]@ == ".."@ && is_subfolder_list(
                display.skip(1),
                self.note_manager.folders@,
                self.state.current_folder@,
            )
        }
    }

    /// Structural invariant: displayed indices name notes, and the display
    /// count fits a `usize`.
    pub open spec fn wf(&self) -> bool {
        &&& forall|i: int|
            0 <= i < self.state.filtered_indices@.len() ==> #[trigger] self.state.filtered_indices@[i]
                < self.note_manager.notes@.len()
        &&& self.state.display_folders@.len() + self.state.filtered_indices@.len() <= usize::MAX
        &&& crate::browse::sizes_ok(self.note_manager)
    }

    /// Number of displayed folder entries.
    pub open spec fn folder_count(&self) -> int {
        self.state.display_folders@.len() as int
    }

    /// The displayed item count: folders, then notes.
    pub open spec fn display_count(&self) -> int {
        (self.state.display_folders@.len() + self.state.filtered_indices@.len()) as int
    }

    /// The position in the notes list of the selected note, if a note is selected.
    pub open spec fn selected_real(&self) -> Option<usize> {
        let f = self.state.display_folders@.len();
        if self.state.selected_index < f {
            None
        } else if self.state.selected_index - f < self.state.filtered_indices@.len() {
            Some(self.state.filtered_indices@[self.state.selected_index - f])
        } else {
            None
        }
    }

    /// The selected folder entry, if a folder is selected.
    pub open spec fn selected_folder(&self) -> Option<Seq<char>> {
        if self.state.selected_index < self.state.display_folders@.len() {
            Some(self.state.display_folders@[self.state.selected_index as int]@)
        } else {
            None
        }
    }

    /// The notes.
    pub fn notes(&self) -> (r: &[Note])
        ensures
            r@ == self.note_manager.notes@,
    {
        self.note_manager.notes()
    }

    /// The position in the notes list of the selected note, or `None` when
    /// a folder or nothing is selected.
    pub fn selected_note_real_index(&self) -> (r: Option<usize>)
        ensures
            r == self.selected_real(),
    {
        let folder_count = self.state.display_folders.len();
        if self.state.selected_index < folder_count {
            return None;
        }
        let k = self.state.selected_index - folder_count;
        if k < self.state.filtered_indices.len() {
            Some(self.state.filtered_indices[k])
        } else {
            None
        }
    }

    /// Whether the selection is a folder entry.
    pub fn is_folder_selected(&self) -> (r: bool)
        ensures
            r == (self.state.selected_index < self.state.display_folders@.len()),
    {
        self.state.selected_index < self.state.display_folders.len()
    }

    /// The name of the selected folder entry, if any.
    pub fn selected_folder_name(&self) -> (r: Option<&str>)
        ensures
            match self.selected_folder() {
                Some(n) => r matches Some(s) && s@ == n,
                None => r is None,
            },
    {
        if self.state.selected_index < self.state.display_folders.len() {
            Some(self.state.display_folders[self.state.selected_index].as_str())
        } else {
            None
        }
    }

    /// Number of displayed items (folders and notes).
    pub fn total_display_count(&self) -> (r: usize)
        requires
            self.wf(),
        ensures
            r == self.display_count(),
    {
        self.state.display_folders.len() + self.state.filtered_indices.len()
    }

    /// Drops the rendered preview.
    pub fn invalidate_markdown_cache(&mut self)
        ensures
            final(self)@ == (AppView { cached_markdown: None, ..old(self)@ }),
            final(self).state.filtered_indices == old(self).state.filtered_indices,
            final(self).state.display_folders == old(self).state.display_folders,
            final(self).note_manager == old(self).note_manager,
            final(self).config == old(self).config,
    {
        self.state.cached_markdown = None;
    }

    /// Number of lines in the rendered preview (0 without one).
    pub fn cached_line_count(&self) -> (r: usize)
        ensures
            r == match self.state.cached_markdown {
                Some(c) => c.lines@.len() as int,
                None => 0,
            },
    {
        match &self.state.cached_markdown {
            Some(c) => c.lines.len(),
            None => 0,
        }
    }

    /// The largest scroll offset: the last line of the rendered preview;
    /// `None` without a preview (scrolling is then unbounded).
    pub fn max_scroll_offset(&self) -> (r: Option<usize>)
        ensures
            match self.state.cached_markdown {
                Some(c) => r == Some(if c.lines@.len() > 0 { (c.lines@.len() - 1) as usize } else { 0usize }),
                None => r is None,
            },
    {
        match &self.state.cached_markdown {
            Some(c) => Some(c.lines.len().saturating_sub(1)),
            None => None,
        }
    }

    /// Sets the status message.
    pub fn set_status(&mut self, msg: String)
        ensures
            final(self)@ == (AppView { status_message: Some(msg@), ..old(self)@ }),
            final(self).state.status_message == Some(msg),
            final(self).state.filtered_indices == old(self).state.filtered_indices,
            final(self).state.display_folders == old(self).state.display_folders,
            final(self).state.cached_markdown == old(self).state.cached_markdown,
            final(self).note_manager == old(self).note_manager,
            final(self).config == old(self).config,
    {
        self.state.status_message = Some(msg);
    }
}

} // verus!
