//! The state machine of the application: what each key action does in each
//! mode. Actions that need the file system return an `Effect`; the event
//! loop performs it and reports back through the `finish_` methods.
use vstd::prelude::*;
use crate::app::{App, AppView, AppAction, AppMode, Effect, KeyAction, PanelFocus, SortMode};
use crate::browse::{preview_ok, refiltered, went_up, sizes_ok, resorted};
use crate::paths::{joined_path, join_path, file_name_of};
use crate::text::{str_eq, push_char};
use crate::theme::{Theme, ThemeView};

verus! {

/// The action needs nothing more.
pub open spec fn nothing(r: Effect) -> bool {
    r == Effect::Done(AppAction::Nothing)
}

/// The selection moves one item up (or down, staying below `limit`), with
/// the preview at the top and following the selection; at the end of the
/// list nothing changes.
pub open spec fn moved(a: App, b: App, up: bool, limit: int) -> bool {
    let s = a.state.selected_index;
    if (up && s > 0) || (!up && s + 1 < limit) {
        &&& b@ == (AppView {
            selected_index: b@.selected_index,
            scroll_offset: 0,
            cached_markdown: b@.cached_markdown,
            ..a@
        })
        &&& b.state.selected_index == (if up { s - 1 } else { s + 1 })
        &&& preview_ok(b)
    } else {
        b == a
    }
}

/// The largest scroll offset: the last line of the rendered preview, if any.
pub open spec fn scroll_max(a: App) -> Option<usize> {
    match a.state.cached_markdown {
        Some(c) => Some(if c.lines@.len() > 0 { (c.lines@.len() - 1) as usize } else { 0usize }),
        None => None,
    }
}

/// `x`, or the largest `usize` when it is larger.
pub open spec fn saturated(x: int) -> int {
    if x > usize::MAX { usize::MAX as int } else { x }
}

/// `x` limited to the largest scroll offset, when there is one.
pub open spec fn capped(x: int, m: Option<usize>) -> usize {
    match m {
        Some(m) => if x < m { x as usize } else { m },
        None => x as usize,
    }
}

/// Position of the first theme named `name` at or after `i`, or 0.
pub open spec fn theme_position_from(themes: Seq<ThemeView>, name: Seq<char>, i: nat) -> usize
    decreases themes.len() - i,
{
    if i >= themes.len() {
        0
    } else if themes[i as int].name == name {
        i as usize
    } else {
        theme_position_from(themes, name, i + 1)
    }
}

/// Position of the first theme named `name`, or 0.
pub open spec fn theme_position(themes: Seq<ThemeView>, name: Seq<char>) -> usize {
    theme_position_from(themes, name, 0)
}

/// Position of a sort mode in the sort menu.
pub open spec fn sort_position(m: SortMode) -> usize {
    match m {
        SortMode::ByModified => 0,
        SortMode::ByCreated => 1,
        SortMode::ByTitle => 2,
    }
}

/// `v` in the given mode.
pub open spec fn in_mode(v: AppView, m: AppMode) -> AppView {
    AppView { mode: m, ..v }
}

/// Opening the selection: a folder entry is entered (`..` goes up); a
/// note is handed to the editor.
pub open spec fn opened(a: App, b: App, r: Effect) -> bool {
    match a.selected_folder() {
        Some(name) => nothing(r) && if name == ".."@ {
            went_up(a, b)
        } else {
            refiltered(
                (AppView { current_folder: joined_path(a.state.current_folder@, name), selected_index: 0, ..a@ }),
                b,
                0,
            )
        },
        None => b == a && match a.selected_real() {
            Some(i) => (r matches Effect::Done(AppAction::OpenEditor(p)) && p@ == a.note_manager.notes@[i as int].path@),
            None => nothing(r),
        },
    }
}

/// What an action does in normal mode.
pub open spec fn normal_step(a: App, action: KeyAction, b: App, r: Effect) -> bool {
    let v = a@;
    let s = v.scroll_offset;
    match action {
        KeyAction::NavigateUp => moved(a, b, true, a.display_count()) && nothing(r),
        KeyAction::NavigateDown => moved(a, b, false, a.display_count()) && nothing(r),
        KeyAction::Select | KeyAction::Edit => opened(a, b, r),
        KeyAction::ViewReadOnly => match a.selected_real() {
            Some(i) => b == a && (r matches Effect::Done(AppAction::OpenViewer(p))
                && p@ == v.note_manager.notes@[i as int].path@),
            None => b == a && nothing(r),
        },
        KeyAction::Create => b@ == (AppView { input_buffer: Seq::empty(), ..in_mode(v, AppMode::CreateNote) })
            && nothing(r),
        KeyAction::Delete => nothing(r) && match a.selected_folder() {
            Some(name) => if name == ".."@ {
                b == a
            } else {
                b@ == in_mode(v, AppMode::ConfirmDeleteFolder)
            },
            None => if v.filtered_indices.len() > 0 {
                b@ == in_mode(v, AppMode::ConfirmDelete)
            } else {
                b == a
            },
        },
        KeyAction::Backspace => went_up(a, b) && nothing(r),
        KeyAction::MoveNote => nothing(r) && if a.selected_real() is Some {
            b@ == (AppView { move_folder_index: 0, ..in_mode(v, AppMode::MoveNote) })
        } else {
            b == a
        },
        KeyAction::CreateFolder => b@ == (AppView { input_buffer: Seq::empty(), ..in_mode(v, AppMode::CreateFolder) })
            && nothing(r),
        KeyAction::Search => b@ == (AppView {
            search_query: Seq::empty(),
            input_buffer: Seq::empty(),
            ..in_mode(v, AppMode::Search)
        }) && nothing(r),
        KeyAction::TagFilter => b@ == (AppView { tag_filter_index: 0, ..in_mode(v, AppMode::TagFilter) })
            && nothing(r),
        KeyAction::Sort => b@ == (AppView { sort_menu_index: sort_position(v.sort_mode), ..in_mode(v, AppMode::SortMenu) })
            && nothing(r),
        KeyAction::Refresh => b == a && r == Effect::Rescan,
        KeyAction::ToggleFocus => b@ == (AppView {
            focus: if v.focus == PanelFocus::SidePanel { PanelFocus::MainPanel } else { PanelFocus::SidePanel },
            ..v
        }) && nothing(r),
        KeyAction::Cancel => refiltered(
            (AppView { search_query: Seq::empty(), active_tag_filter: None, ..v }),
            b,
            v.selected_index,
        ) && nothing(r),
        KeyAction::Quit => b@ == (AppView { should_quit: true, ..v }) && r == Effect::Done(AppAction::Quit),
        KeyAction::Help => b@ == in_mode(v, AppMode::Help) && nothing(r),
        KeyAction::Rename => nothing(r) && match a.selected_real() {
            Some(i) => b@ == (AppView {
                input_buffer: v.note_manager.notes@[i as int].title@,
                ..in_mode(v, AppMode::Rename)
            }),
            None => b == a,
        },
        KeyAction::ScrollUp => b@ == (AppView { scroll_offset: if s > 0 { (s - 1) as usize } else { 0 }, ..v })
            && nothing(r),
        KeyAction::ScrollDown => b@ == (AppView { scroll_offset: capped(saturated(s + 1), scroll_max(a)), ..v }) && nothing(r),
        KeyAction::PageUp => b@ == (AppView { scroll_offset: if s > 10 { (s - 10) as usize } else { 0 }, ..v })
            && nothing(r),
        KeyAction::PageDown => b@ == (AppView { scroll_offset: capped(saturated(s + 10), scroll_max(a)), ..v }) && nothing(r),
        KeyAction::Home => b@ == (AppView { scroll_offset: 0, ..v }) && nothing(r),
        KeyAction::End => b@ == (AppView {
            scroll_offset: match scroll_max(a) {
                Some(m) => m,
                None => 0,
            },
            ..v
        }) && nothing(r),
        KeyAction::ThemeMenu => b@ == (AppView {
            theme_menu_index: theme_position(v.available_themes, v.current_theme.name),
            ..in_mode(v, AppMode::ThemeMenu)
        }) && nothing(r),
        _ => b == a && nothing(r),
    }
}

/// The text `s` after typing `action` into it: a character is appended,
/// backspace removes the last one.
pub open spec fn edited(s: Seq<char>, action: KeyAction) -> Seq<char> {
    match action {
        KeyAction::Char(c) => s.push(c),
        KeyAction::Backspace => if s.len() > 0 { s.drop_last() } else { s },
        _ => s,
    }
}

/// Whether an action edits text.
pub open spec fn is_typing(action: KeyAction) -> bool {
    action is Char || action is Backspace
}

/// What an action does while searching: typing edits the query and filters
/// again; Enter keeps the results, Escape drops the query.
pub open spec fn search_step(a: App, action: KeyAction, b: App, r: Effect) -> bool {
    let v = a@;
    nothing(r) && if is_typing(action) {
        refiltered((AppView { search_query: edited(v.search_query, action), ..v }), b, v.selected_index)
    } else {
        match action {
            KeyAction::Select => b@ == in_mode(v, AppMode::Normal),
            KeyAction::Cancel => refiltered(
                (AppView { search_query: Seq::empty(), ..in_mode(v, AppMode::Normal) }),
                b,
                v.selected_index,
            ),
            KeyAction::NavigateUp => moved(a, b, true, a.display_count()),
            KeyAction::NavigateDown => moved(a, b, false, v.filtered_indices.len() as int),
            _ => b == a,
        }
    }
}

/// In a text dialog, typing edits the input and Escape closes the dialog.
pub open spec fn typed(a: App, action: KeyAction, b: App, r: Effect) -> bool {
    let v = a@;
    nothing(r) && if is_typing(action) {
        b@ == (AppView { input_buffer: edited(v.input_buffer, action), ..v })
    } else if action is Cancel {
        b@ == in_mode(v, AppMode::Normal)
    } else {
        b == a
    }
}

/// The dialog closes with nothing else done.
pub open spec fn closed(a: App, b: App, r: Effect) -> bool {
    b@ == in_mode(a@, AppMode::Normal) && nothing(r)
}

/// Creating a note: Enter with a title asks for the note to be created in
/// the browsed folder; with no title the dialog just closes.
pub open spec fn create_note_step(a: App, action: KeyAction, b: App, r: Effect) -> bool {
    let v = a@;
    if action is Select {
        if v.input_buffer.len() == 0 {
            closed(a, b, r)
        } else {
            b == a && (r matches Effect::CreateNote { title, folder } && title@ == v.input_buffer
                && folder@ == v.current_folder)
        }
    } else {
        typed(a, action, b, r)
    }
}

/// Renaming: Enter with a title asks for the selected note to be renamed.
pub open spec fn rename_step(a: App, action: KeyAction, b: App, r: Effect) -> bool {
    let v = a@;
    if action is Select {
        match a.selected_real() {
            Some(i) => if v.input_buffer.len() > 0 {
                b == a && (r matches Effect::RenameNote { index, title } && index == i && title@ == v.input_buffer)
            } else {
                closed(a, b, r)
            },
            None => closed(a, b, r),
        }
    } else {
        typed(a, action, b, r)
    }
}

/// Confirming a deletion: Enter asks for the selected note to be deleted.
pub open spec fn confirm_delete_step(a: App, action: KeyAction, b: App, r: Effect) -> bool {
    match action {
        KeyAction::Select => match a.selected_real() {
            Some(i) => b == a && r == Effect::DeleteNote { index: i },
            None => closed(a, b, r),
        },
        KeyAction::Cancel => closed(a, b, r),
        _ => b == a && nothing(r),
    }
}

/// The tag menu: "(All notes)", then the sorted distinct tags.
pub open spec fn is_tag_menu(notes: Seq<crate::note::Note>, items: Seq<String>) -> bool {
    &&& items.len() >= 1
    &&& items[0]@ == "(All notes)"@
    &&& crate::tags::is_sorted_tag_list(notes, items.skip(1))
}

/// `i` moved one step up, or down below `count`.
pub open spec fn stepped(i: usize, up: bool, count: int) -> usize {
    if up {
        if i > 0 { (i - 1) as usize } else { i }
    } else {
        if i + 1 < count { (i + 1) as usize } else { i }
    }
}

/// The tag filter menu: Enter applies the highlighted tag (the first item
/// clears the filter) and filters again.
pub open spec fn tag_filter_step(a: App, action: KeyAction, b: App, r: Effect) -> bool {
    let v = a@;
    let t = v.tag_filter_index;
    exists|items: Seq<String>|
        #[trigger] is_tag_menu(v.note_manager.notes@, items) && match action {
            KeyAction::NavigateUp => b@ == (AppView { tag_filter_index: stepped(t, true, items.len() as int), ..v })
                && nothing(r),
            KeyAction::NavigateDown => b@ == (AppView { tag_filter_index: stepped(t, false, items.len() as int), ..v })
                && nothing(r),
            KeyAction::Select => nothing(r) && refiltered(
                (AppView {
                    active_tag_filter: if t == 0 {
                        None
                    } else if t < items.len() {
                        Some(items[t as int]@)
                    } else {
                        v.active_tag_filter
                    },
                    ..in_mode(v, AppMode::Normal)
                }),
                b,
                v.selected_index,
            ),
            KeyAction::Cancel => closed(a, b, r),
            _ => b == a && nothing(r),
        }
}

/// The sort mode at a position of the sort menu.
pub open spec fn sort_mode_at(i: usize) -> SortMode {
    if i == 0 {
        SortMode::ByModified
    } else if i == 1 {
        SortMode::ByCreated
    } else {
        SortMode::ByTitle
    }
}

/// The name a sort mode is saved under.
pub open spec fn sort_mode_name(m: SortMode) -> Seq<char> {
    match m {
        SortMode::ByModified => "modified"@,
        SortMode::ByCreated => "created"@,
        SortMode::ByTitle => "title"@,
    }
}

/// `d` is `c` with the sort settings saved as `m` and `ascending`.
pub open spec fn sort_saved(c: crate::settings::Config, d: crate::settings::Config, m: SortMode, ascending: bool) -> bool {
    &&& d.general == c.general
    &&& d.ui == c.ui
    &&& d.colors == c.colors
    &&& d.themes == c.themes
    &&& d.sort.default_mode@ == sort_mode_name(m)
    &&& d.sort.default_ascending == ascending
}

/// The sort menu: Enter picks the highlighted mode (picking the current
/// one flips the direction), sorts again and saves the choice.
pub open spec fn sort_menu_step(a: App, action: KeyAction, b: App, r: Effect) -> bool {
    let v = a@;
    let i = v.sort_menu_index;
    let picked = sort_mode_at(i);
    let asc = if picked == v.sort_mode { !v.sort_ascending } else { v.sort_ascending };
    match action {
        KeyAction::NavigateUp => b@ == (AppView { sort_menu_index: stepped(i, true, 3), ..v }) && nothing(r),
        KeyAction::NavigateDown => b@ == (AppView { sort_menu_index: stepped(i, false, 3), ..v }) && nothing(r),
        KeyAction::Select => {
            &&& r == Effect::SaveConfig
            &&& b@ == (AppView {
                config: b.config,
                filtered_indices: b@.filtered_indices,
                sort_mode: picked,
                sort_ascending: asc,
                ..in_mode(v, AppMode::Normal)
            })
            &&& sort_saved(a.config, b.config, picked, asc)
            &&& crate::order::is_stable_sort(
                b@.filtered_indices,
                v.filtered_indices,
                crate::sort::note_sort_keys(v.note_manager.notes@, picked),
                !asc,
            )
        },
        KeyAction::Cancel => closed(a, b, r),
        _ => b == a && nothing(r),
    }
}

/// `d` is `c` with `name` saved as the theme.
pub open spec fn theme_saved(c: crate::settings::Config, d: crate::settings::Config, name: Seq<char>) -> bool {
    &&& d.general == c.general
    &&& d.sort == c.sort
    &&& d.colors == c.colors
    &&& d.themes == c.themes
    &&& d.ui.side_panel_width_percent == c.ui.side_panel_width_percent
    &&& d.ui.show_tags == c.ui.show_tags
    &&& d.ui.show_dates == c.ui.show_dates
    &&& d.ui.date_format == c.ui.date_format
    &&& d.ui.search_content == c.ui.search_content
    &&& d.ui.default_theme@ == name
}

/// Selecting the theme at `index`: it becomes current, the preview is
/// dropped, the choice is announced and saved. Out of range, nothing.
pub open spec fn theme_selected(a: App, index: usize, b: App, r: Effect) -> bool {
    let v = a@;
    if index < v.available_themes.len() {
        let t = v.available_themes[index as int];
        &&& r == Effect::SaveConfig
        &&& b@ == (AppView {
            current_theme: t,
            config: b.config,
            cached_markdown: None,
            status_message: Some("Theme: "@ + t.name),
            ..v
        })
        &&& theme_saved(a.config, b.config, t.name)
    } else {
        b == a && nothing(r)
    }
}

/// The theme menu: Enter applies the highlighted theme.
pub open spec fn theme_menu_step(a: App, action: KeyAction, b: App, r: Effect) -> bool {
    let v = a@;
    let i = v.theme_menu_index;
    match action {
        KeyAction::NavigateUp => b@ == (AppView { theme_menu_index: stepped(i, true, v.available_themes.len() as int), ..v })
            && nothing(r),
        KeyAction::NavigateDown => b@ == (AppView {
            theme_menu_index: stepped(i, false, v.available_themes.len() as int),
            ..v
        }) && nothing(r),
        KeyAction::Select => exists|mid: App| #[trigger] theme_selected(a, i, mid, r) && b@ == in_mode(mid@, AppMode::Normal),
        KeyAction::Cancel => closed(a, b, r),
        _ => b == a && nothing(r),
    }
}

/// The help screen closes on Escape.
pub open spec fn help_step(a: App, action: KeyAction, b: App, r: Effect) -> bool {
    if action is Cancel {
        closed(a, b, r)
    } else {
        b == a && nothing(r)
    }
}

/// The status shown after moving a note to `target`.
pub open spec fn moved_status(target: Seq<char>) -> Seq<char> {
    "Moved to: "@ + (if target.len() == 0 { "(root)"@ } else { target })
}

/// The move dialog lists the root, then every folder; Enter moves the
/// selected note to the highlighted one (a note already there stays, and
/// the move is announced all the same).
pub open spec fn move_note_step(a: App, action: KeyAction, b: App, r: Effect) -> bool {
    let v = a@;
    let nm = v.note_manager;
    let count = nm.folders@.len() + 1int;
    let m = v.move_folder_index;
    match action {
        KeyAction::NavigateUp => b@ == (AppView { move_folder_index: stepped(m, true, count), ..v }) && nothing(r),
        KeyAction::NavigateDown => b@ == (AppView { move_folder_index: stepped(m, false, count), ..v }) && nothing(r),
        KeyAction::Select => match a.selected_real() {
            Some(i) => if m < count {
                let target = if m == 0 { Seq::<char>::empty() } else { nm.folders@[m - 1]@ };
                let path = nm.notes@[i as int].path@;
                match file_name_of(path) {
                    None => b == a && (r matches Effect::Fail(e) && e@ == "note has no filename"@),
                    Some(name) => {
                        let dest = joined_path(joined_path(nm.notes_dir@, target), name);
                        if crate::paths::same_path(dest, path) {
                            nothing(r) && refiltered(
                                (AppView { status_message: Some(moved_status(target)), ..in_mode(v, AppMode::Normal) }),
                                b,
                                v.selected_index,
                            )
                        } else {
                            b == a && (r matches Effect::MoveNote { index, destination, target: t } && index == i
                                && destination@ == dest && t@ == target)
                        }
                    },
                }
            } else {
                closed(a, b, r)
            },
            None => closed(a, b, r),
        },
        KeyAction::Cancel => closed(a, b, r),
        _ => b == a && nothing(r),
    }
}

/// Creating a folder: Enter with a name asks for it inside the browsed folder.
pub open spec fn create_folder_step(a: App, action: KeyAction, b: App, r: Effect) -> bool {
    let v = a@;
    if action is Select {
        if v.input_buffer.len() == 0 {
            closed(a, b, r)
        } else {
            b == a && (r matches Effect::CreateFolder { path, name } && path@ == joined_path(
                v.current_folder,
                v.input_buffer,
            ) && name@ == v.input_buffer)
        }
    } else {
        typed(a, action, b, r)
    }
}

/// Confirming a folder deletion: Enter asks for the selected folder entry
/// (never `..`) to be deleted.
pub open spec fn confirm_delete_folder_step(a: App, action: KeyAction, b: App, r: Effect) -> bool {
    let v = a@;
    match action {
        KeyAction::Select => match a.selected_folder() {
            Some(name) => if name != ".."@ {
                b == a && (r matches Effect::DeleteFolder { path, name: n } && path@ == joined_path(
                    v.current_folder,
                    name,
                ) && n@ == name)
            } else {
                closed(a, b, r)
            },
            None => closed(a, b, r),
        },
        KeyAction::Cancel => closed(a, b, r),
        _ => b == a && nothing(r),
    }
}

/// What an action does, by mode.
pub open spec fn step(a: App, action: KeyAction, b: App, r: Effect) -> bool {
    match a.state.mode {
        AppMode::Normal => normal_step(a, action, b, r),
        AppMode::Search => search_step(a, action, b, r),
        AppMode::CreateNote => create_note_step(a, action, b, r),
        AppMode::Rename => rename_step(a, action, b, r),
        AppMode::ConfirmDelete => confirm_delete_step(a, action, b, r),
        AppMode::TagFilter => tag_filter_step(a, action, b, r),
        AppMode::SortMenu => sort_menu_step(a, action, b, r),
        AppMode::ThemeMenu => theme_menu_step(a, action, b, r),
        AppMode::Help => help_step(a, action, b, r),
        AppMode::MoveNote => move_note_step(a, action, b, r),
        AppMode::CreateFolder => create_folder_step(a, action, b, r),
        AppMode::ConfirmDeleteFolder => confirm_delete_folder_step(a, action, b, r),
    }
}

/// Position of the first theme named `name` in `themes`, or 0.
pub fn find_theme(themes: &[Theme], name: &str) -> (r: usize)
    ensures
        r == theme_position(themes@.map_values(|t: Theme| t@), name@),
{
    let ghost ts = themes@.map_values(|t: Theme| t@);
    let mut i: usize = 0;
    while i < themes.len()
        invariant
            i <= themes@.len(),
            ts == themes@.map_values(|t: Theme| t@),
            theme_position(ts, name@) == theme_position_from(ts, name@, i as nat),
        decreases themes@.len() - i,
    {
        if str_eq(themes[i].name.as_str(), name) {
            return i;
        }
        i = i + 1;
    }
    0
}

impl App {
    /// Position of the first available theme named `name`, or 0.
    fn theme_index(&self, name: &str) -> (r: usize)
        ensures
            r == theme_position(self@.available_themes, name@),
    {
        find_theme(self.available_themes.as_slice(), name)
    }

    /// Moves the selection one item up, or down below `limit`.
    fn move_selection(&mut self, up: bool, limit: usize)
        ensures
            moved(*old(self), *final(self), up, limit as int),
    {
        let s = self.state.selected_index;
        if up && s > 0 {
            self.state.selected_index = s - 1;
        } else if !up && limit > 0 && s < limit - 1 {
            self.state.selected_index = s + 1;
        } else {
            return;
        }
        self.state.scroll_offset = 0;
        self.load_selected_content();
    }

    /// Normal mode: browsing and opening notes and folders.
    fn handle_normal(&mut self, action: KeyAction) -> (r: Effect)
        requires
            old(self).wf(),
        ensures
            normal_step(*old(self), action, *final(self), r),
    {
        match action {
            KeyAction::NavigateUp => {
                let n = self.total_display_count();
                self.move_selection(true, n);
            },
            KeyAction::NavigateDown => {
                let n = self.total_display_count();
                self.move_selection(false, n);
            },
            KeyAction::Select | KeyAction::Edit => {
                return self.open_selection();
            },
            KeyAction::ViewReadOnly => {
                match self.selected_note_real_index() {
                    Some(i) => {
                        return Effect::Done(AppAction::OpenViewer(self.note_manager.notes[i].path.clone()));
                    },
                    None => {},
                }
            },
            KeyAction::Create => {
                self.state.mode = AppMode::CreateNote;
                self.state.input_buffer = String::new();
            },
            KeyAction::Delete => {
                if self.state.selected_index < self.state.display_folders.len() {
                    if !str_eq(self.state.display_folders[self.state.selected_index].as_str(), "..") {
                        self.state.mode = AppMode::ConfirmDeleteFolder;
                    }
                } else if self.state.filtered_indices.len() > 0 {
                    self.state.mode = AppMode::ConfirmDelete;
                }
            },
            KeyAction::Backspace => {
                self.navigate_parent_folder();
            },
            KeyAction::MoveNote => {
                if self.selected_note_real_index().is_some() {
                    self.move_folder_index = 0;
                    self.state.mode = AppMode::MoveNote;
                }
            },
            KeyAction::CreateFolder => {
                self.state.mode = AppMode::CreateFolder;
                self.state.input_buffer = String::new();
            },
            KeyAction::Search => {
                self.state.mode = AppMode::Search;
                self.state.search_query = String::new();
                self.state.input_buffer = String::new();
            },
            KeyAction::TagFilter => {
                self.state.mode = AppMode::TagFilter;
                self.tag_filter_index = 0;
            },
            KeyAction::Sort => {
                self.state.mode = AppMode::SortMenu;
                self.sort_menu_index = match self.state.sort_mode {
                    SortMode::ByModified => 0,
                    SortMode::ByCreated => 1,
                    SortMode::ByTitle => 2,
                };
            },
            KeyAction::Refresh => {
                return Effect::Rescan;
            },
            KeyAction::ToggleFocus => {
                self.state.focus = match self.state.focus {
                    PanelFocus::SidePanel => PanelFocus::MainPanel,
                    PanelFocus::MainPanel => PanelFocus::SidePanel,
                };
            },
            KeyAction::Cancel => {
                self.state.search_query = String::new();
                self.state.active_tag_filter = None;
                self.refilter();
            },
            KeyAction::Quit => {
                self.should_quit = true;
                return Effect::Done(AppAction::Quit);
            },
            KeyAction::Help => {
                self.state.mode = AppMode::Help;
            },
            KeyAction::Rename => {
                match self.selected_note_real_index() {
                    Some(i) => {
                        self.state.mode = AppMode::Rename;
                        self.state.input_buffer = self.note_manager.notes[i].title.clone();
                    },
                    None => {},
                }
            },
            KeyAction::ScrollUp => {
                self.state.scroll_offset = self.state.scroll_offset.saturating_sub(1);
            },
            KeyAction::ScrollDown => {
                let x = self.state.scroll_offset.saturating_add(1);
                self.state.scroll_offset = match self.max_scroll_offset() {
                    Some(m) => if x < m { x } else { m },
                    None => x,
                };
            },
            KeyAction::PageUp => {
                self.state.scroll_offset = self.state.scroll_offset.saturating_sub(10);
            },
            KeyAction::PageDown => {
                let x = self.state.scroll_offset.saturating_add(10);
                self.state.scroll_offset = match self.max_scroll_offset() {
                    Some(m) => if x < m { x } else { m },
                    None => x,
                };
            },
            KeyAction::Home => {
                self.state.scroll_offset = 0;
            },
            KeyAction::End => {
                self.state.scroll_offset = match self.max_scroll_offset() {
                    Some(m) => m,
                    None => 0,
                };
            },
            KeyAction::ThemeMenu => {
                self.state.mode = AppMode::ThemeMenu;
                let name = self.current_theme.name.clone();
                self.theme_menu_index = self.theme_index(name.as_str());
            },
            _ => {},
        }
        Effect::Done(AppAction::Nothing)
    }

    /// Opens the selection: enters a folder entry (`..` goes up), or hands
    /// the selected note to the editor.
    fn open_selection(&mut self) -> (r: Effect)
        requires
            old(self).wf(),
        ensures
            opened(*old(self), *final(self), r),
    {
        if self.state.selected_index < self.state.display_folders.len() {
            let name = self.state.display_folders[self.state.selected_index].clone();
            if str_eq(name.as_str(), "..") {
                self.navigate_parent_folder();
            } else {
                let folder = join_path(self.state.current_folder.as_str(), name.as_str());
                self.state.current_folder = folder;
                self.state.selected_index = 0;
                self.refilter();
            }
            return Effect::Done(AppAction::Nothing);
        }
        match self.selected_note_real_index() {
            Some(i) => {
                Effect::Done(AppAction::OpenEditor(self.note_manager.notes[i].path.clone()))
            },
            None => Effect::Done(AppAction::Nothing),
        }
    }
    /// Types into the dialog input, or closes the dialog on Escape.
    fn type_into_dialog(&mut self, action: KeyAction) -> (r: Effect)
        ensures
            typed(*old(self), action, *final(self), r),
    {
        match action {
            KeyAction::Char(c) => {
                push_char(&mut self.state.input_buffer, c);
            },
            KeyAction::Backspace => {
                crate::app::pop_char(&mut self.state.input_buffer);
            },
            KeyAction::Cancel => {
                self.state.mode = AppMode::Normal;
            },
            _ => {},
        }
        Effect::Done(AppAction::Nothing)
    }

    /// Search mode.
    fn handle_search(&mut self, action: KeyAction) -> (r: Effect)
        requires
            old(self).wf(),
        ensures
            search_step(*old(self), action, *final(self), r),
    {
        match action {
            KeyAction::Char(c) => {
                push_char(&mut self.state.search_query, c);
                self.refilter();
            },
            KeyAction::Backspace => {
                crate::app::pop_char(&mut self.state.search_query);
                self.refilter();
            },
            KeyAction::Select => {
                self.state.mode = AppMode::Normal;
            },
            KeyAction::Cancel => {
                self.state.search_query = String::new();
                self.refilter();
                self.state.mode = AppMode::Normal;
            },
            KeyAction::NavigateUp => {
                let n = self.total_display_count();
                self.move_selection(true, n);
            },
            KeyAction::NavigateDown => {
                let n = self.state.filtered_indices.len();
                self.move_selection(false, n);
            },
            _ => {},
        }
        Effect::Done(AppAction::Nothing)
    }

    /// The create-note dialog.
    fn handle_create_note(&mut self, action: KeyAction) -> (r: Effect)
        ensures
            create_note_step(*old(self), action, *final(self), r),
    {
        if let KeyAction::Select = action {
            if self.state.input_buffer.as_str().unicode_len() == 0 {
                self.state.mode = AppMode::Normal;
                return Effect::Done(AppAction::Nothing);
            }
            return Effect::CreateNote {
                title: self.state.input_buffer.clone(),
                folder: self.state.current_folder.clone(),
            };
        }
        self.type_into_dialog(action)
    }

    /// The rename dialog.
    fn handle_rename(&mut self, action: KeyAction) -> (r: Effect)
        ensures
            rename_step(*old(self), action, *final(self), r),
    {
        if let KeyAction::Select = action {
            if let Some(i) = self.selected_note_real_index() {
                if self.state.input_buffer.as_str().unicode_len() > 0 {
                    return Effect::RenameNote { index: i, title: self.state.input_buffer.clone() };
                }
            }
            self.state.mode = AppMode::Normal;
            return Effect::Done(AppAction::Nothing);
        }
        self.type_into_dialog(action)
    }

    /// The note deletion confirmation.
    fn handle_confirm_delete(&mut self, action: KeyAction) -> (r: Effect)
        ensures
            confirm_delete_step(*old(self), action, *final(self), r),
    {
        match action {
            KeyAction::Select => {
                if let Some(i) = self.selected_note_real_index() {
                    return Effect::DeleteNote { index: i };
                }
                self.state.mode = AppMode::Normal;
            },
            KeyAction::Cancel => {
                self.state.mode = AppMode::Normal;
            },
            _ => {},
        }
        Effect::Done(AppAction::Nothing)
    }

    /// The tag filter menu.
    fn handle_tag_filter(&mut self, action: KeyAction) -> (r: Effect)
        requires
            old(self).wf(),
        ensures
            tag_filter_step(*old(self), action, *final(self), r),
    {
        let items = crate::tags::tag_filter_items(self.note_manager.notes.as_slice());
        let ghost start = *self;
        assert(is_tag_menu(self.note_manager.notes@, items@));
        let count = items.len();
        match action {
            KeyAction::NavigateUp => {
                if self.tag_filter_index > 0 {
                    self.tag_filter_index = self.tag_filter_index - 1;
                }
            },
            KeyAction::NavigateDown => {
                if count > 0 && self.tag_filter_index < count - 1 {
                    self.tag_filter_index = self.tag_filter_index + 1;
                }
            },
            KeyAction::Select => {
                if self.tag_filter_index == 0 {
                    self.state.active_tag_filter = None;
                } else if self.tag_filter_index < count {
                    self.state.active_tag_filter = Some(items[self.tag_filter_index].clone());
                }
                self.state.mode = AppMode::Normal;
                self.refilter();
            },
            KeyAction::Cancel => {
                self.state.mode = AppMode::Normal;
            },
            _ => {},
        }
        assert(tag_filter_step(start, action, *self, Effect::Done(AppAction::Nothing)) ==> true);
        Effect::Done(AppAction::Nothing)
    }

    /// The sort menu.
    fn handle_sort_menu(&mut self, action: KeyAction) -> (r: Effect)
        requires
            old(self).wf(),
        ensures
            sort_menu_step(*old(self), action, *final(self), r),
    {
        match action {
            KeyAction::NavigateUp => {
                if self.sort_menu_index > 0 {
                    self.sort_menu_index = self.sort_menu_index - 1;
                }
            },
            KeyAction::NavigateDown => {
                if self.sort_menu_index < 2 {
                    self.sort_menu_index = self.sort_menu_index + 1;
                }
            },
            KeyAction::Select => {
                let picked = if self.sort_menu_index == 0 {
                    SortMode::ByModified
                } else if self.sort_menu_index == 1 {
                    SortMode::ByCreated
                } else {
                    SortMode::ByTitle
                };
                if picked == self.state.sort_mode {
                    self.state.sort_ascending = !self.state.sort_ascending;
                } else {
                    self.state.sort_mode = picked;
                }
                self.resort();
                self.state.mode = AppMode::Normal;
                self.config.sort.default_mode = String::from_str(
                    match self.state.sort_mode {
                        SortMode::ByModified => "modified",
                        SortMode::ByCreated => "created",
                        SortMode::ByTitle => "title",
                    },
                );
                self.config.sort.default_ascending = self.state.sort_ascending;
                return Effect::SaveConfig;
            },
            KeyAction::Cancel => {
                self.state.mode = AppMode::Normal;
            },
            _ => {},
        }
        Effect::Done(AppAction::Nothing)
    }

    /// Applies the theme at `index` of the available themes, announces it
    /// and records it in the configuration (to be saved).
    pub fn select_theme(&mut self, index: usize) -> (r: Effect)
        ensures
            theme_selected(*old(self), index, *final(self), r),
    {
        if index < self.available_themes.len() {
            let t = crate::app::clone_theme(&self.available_themes[index]);
            self.current_theme = t;
            self.invalidate_markdown_cache();
            let msg = crate::app::concat("Theme: ", self.current_theme.name.as_str());
            self.set_status(msg);
            self.config.ui.default_theme = self.current_theme.name.clone();
            return Effect::SaveConfig;
        }
        Effect::Done(AppAction::Nothing)
    }

    /// The theme menu.
    fn handle_theme_menu(&mut self, action: KeyAction) -> (r: Effect)
        ensures
            theme_menu_step(*old(self), action, *final(self), r),
    {
        let count = self.available_themes.len();
        match action {
            KeyAction::NavigateUp => {
                if self.theme_menu_index > 0 {
                    self.theme_menu_index = self.theme_menu_index - 1;
                }
            },
            KeyAction::NavigateDown => {
                if count > 0 && self.theme_menu_index < count - 1 {
                    self.theme_menu_index = self.theme_menu_index + 1;
                }
            },
            KeyAction::Select => {
                let i = self.theme_menu_index;
                let r = self.select_theme(i);
                let ghost mid = *self;
                self.state.mode = AppMode::Normal;
                assert(theme_selected(*old(self), i, mid, r));
                return r;
            },
            KeyAction::Cancel => {
                self.state.mode = AppMode::Normal;
            },
            _ => {},
        }
        Effect::Done(AppAction::Nothing)
    }

    /// The help screen.
    fn handle_help(&mut self, action: KeyAction) -> (r: Effect)
        ensures
            help_step(*old(self), action, *final(self), r),
    {
        if let KeyAction::Cancel = action {
            self.state.mode = AppMode::Normal;
        }
        Effect::Done(AppAction::Nothing)
    }

    /// The move dialog.
    fn handle_move_note(&mut self, action: KeyAction) -> (r: Effect)
        requires
            old(self).wf(),
        ensures
            move_note_step(*old(self), action, *final(self), r),
    {
        let folders = self.note_manager.all_folder_paths();
        let count = folders.len();
        match action {
            KeyAction::NavigateUp => {
                if self.move_folder_index > 0 {
                    self.move_folder_index = self.move_folder_index - 1;
                }
            },
            KeyAction::NavigateDown => {
                if count > 0 && self.move_folder_index < count - 1 {
                    self.move_folder_index = self.move_folder_index + 1;
                }
            },
            KeyAction::Select => {
                if let Some(i) = self.selected_note_real_index() {
                    if self.move_folder_index < count {
                        let target = folders[self.move_folder_index].clone();
                        proof {
                            if self.move_folder_index > 0 {
                                assert(folders@[(self.move_folder_index - 1) + 1] == self.note_manager.folders@[self.move_folder_index - 1]);
                            } else {
                                assert(target@ =~= Seq::<char>::empty());
                            }
                        }
                        match self.note_manager.move_destination(i, target.as_str()) {
                            None => {
                                return Effect::Fail(String::from_str("note has no filename"));
                            },
                            Some(dest) => {
                                if crate::paths::paths_equal(dest.as_str(), self.note_manager.notes[i].path.as_str()) {
                                    let msg = if target.as_str().unicode_len() == 0 {
                                        String::from_str("Moved to: (root)")
                                    } else {
                                        crate::app::concat("Moved to: ", target.as_str())
                                    };
                                    proof {
                                        reveal_strlit("Moved to: (root)");
                                        reveal_strlit("Moved to: ");
                                        reveal_strlit("(root)");
                                        assert(msg@ =~= moved_status(target@));
                                    }
                                    self.set_status(msg);
                                    self.state.mode = AppMode::Normal;
                                    self.refilter();
                                    return Effect::Done(AppAction::Nothing);
                                }
                                return Effect::MoveNote { index: i, destination: dest, target };
                            },
                        }
                    }
                }
                self.state.mode = AppMode::Normal;
            },
            KeyAction::Cancel => {
                self.state.mode = AppMode::Normal;
            },
            _ => {},
        }
        Effect::Done(AppAction::Nothing)
    }

    /// The create-folder dialog.
    fn handle_create_folder(&mut self, action: KeyAction) -> (r: Effect)
        ensures
            create_folder_step(*old(self), action, *final(self), r),
    {
        if let KeyAction::Select = action {
            if self.state.input_buffer.as_str().unicode_len() == 0 {
                self.state.mode = AppMode::Normal;
                return Effect::Done(AppAction::Nothing);
            }
            let path = join_path(self.state.current_folder.as_str(), self.state.input_buffer.as_str());
            return Effect::CreateFolder { path, name: self.state.input_buffer.clone() };
        }
        self.type_into_dialog(action)
    }

    /// The folder deletion confirmation.
    fn handle_confirm_delete_folder(&mut self, action: KeyAction) -> (r: Effect)
        ensures
            confirm_delete_folder_step(*old(self), action, *final(self), r),
    {
        match action {
            KeyAction::Select => {
                if self.state.selected_index < self.state.display_folders.len() {
                    let name = self.state.display_folders[self.state.selected_index].clone();
                    if !str_eq(name.as_str(), "..") {
                        let path = join_path(self.state.current_folder.as_str(), name.as_str());
                        return Effect::DeleteFolder { path, name };
                    }
                }
                self.state.mode = AppMode::Normal;
            },
            KeyAction::Cancel => {
                self.state.mode = AppMode::Normal;
            },
            _ => {},
        }
        Effect::Done(AppAction::Nothing)
    }

    /// Handles a key action in the current mode. Returns what the event loop
    /// must do next: continue, open a note, quit, or perform file-system
    /// work and report back through the matching `finish_` method.
    pub fn handle_action(&mut self, action: KeyAction) -> (r: Effect)
        requires
            old(self).wf(),
        ensures
            step(*old(self), action, *final(self), r),
            final(self).wf(),
    {
        match self.state.mode {
            AppMode::Normal => self.handle_normal(action),
            AppMode::Search => self.handle_search(action),
            AppMode::CreateNote => self.handle_create_note(action),
            AppMode::Rename => self.handle_rename(action),
            AppMode::ConfirmDelete => self.handle_confirm_delete(action),
            AppMode::TagFilter => self.handle_tag_filter(action),
            AppMode::SortMenu => self.handle_sort_menu(action),
            AppMode::ThemeMenu => self.handle_theme_menu(action),
            AppMode::Help => self.handle_help(action),
            AppMode::MoveNote => self.handle_move_note(action),
            AppMode::CreateFolder => self.handle_create_folder(action),
            AppMode::ConfirmDeleteFolder => self.handle_confirm_delete_folder(action),
        }
    }
}

} // verus!
