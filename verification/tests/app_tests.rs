use chrono::{Local, TimeZone};
use deez_notes::app::{App, AppAction, AppMode, Effect, KeyAction, PanelFocus, SortMode};
use deez_notes::note::{note_file_name, Note, Timestamp};
use deez_notes::note_manager::NoteManager;
use deez_notes::settings::Config;

const DIR: &str = "/notes";

fn ts(dt: chrono::DateTime<chrono::Local>) -> Timestamp {
    Timestamp { secs: dt.timestamp(), nanos: dt.timestamp_subsec_nanos() }
}

/// A note as the scan finds it: front matter read, body not loaded yet.
fn listed_note(name: &str, title: &str, tags: &[&str]) -> Note {
    let date = ts(Local.with_ymd_and_hms(2025, 1, 1, 0, 0, 0).unwrap());
    Note {
        path: format!("{DIR}/{name}"),
        title: title.to_string(),
        content: None,
        tags: tags.iter().map(|t| t.to_string()).collect(),
        created: date,
        modified: date,
    }
}

fn test_config() -> Config {
    let mut cfg = Config::default();
    cfg.general.notes_dir = DIR.to_string();
    cfg.sort.default_mode = "title".to_string();
    cfg.sort.default_ascending = true;
    cfg
}

fn manager(notes: Vec<Note>) -> NoteManager {
    let mut m = NoteManager::new(DIR.to_string());
    m.set_scan_results(notes, Vec::new(), Vec::new());
    m
}

/// Loads the body of the selected note, as the event loop does.
fn load(app: &mut App) {
    if let Some(i) = app.content_to_load() {
        let body = format!("Body of {}.", app.notes()[i].title);
        app.content_loaded(i, body);
    }
}

fn three_notes() -> Vec<Note> {
    vec![
        listed_note("alpha.md", "Alpha", &["rust"]),
        listed_note("beta.md", "Beta", &["rust", "tui"]),
        listed_note("gamma.md", "Gamma", &["python"]),
    ]
}

fn setup_app() -> App {
    let mut app = App::new(test_config(), None, manager(three_notes()));
    load(&mut app);
    app
}

fn empty_app() -> App {
    App::new(test_config(), None, manager(Vec::new()))
}

/// Performs the file-system work of an effect on the in-memory notes, then
/// reports back to the application.
fn perform(app: &mut App, effect: Effect) -> AppAction {
    match effect {
        Effect::Done(a) => a,
        Effect::Rescan => {
            let notes = app.notes().to_vec();
            let folders = app.note_manager.folders.clone();
            app.finish_rescan(notes, folders, Vec::new());
            AppAction::Nothing
        }
        Effect::CreateNote { title, folder } => {
            let name = note_file_name(&title, 0);
            let dir = if folder.is_empty() { DIR.to_string() } else { format!("{DIR}/{folder}") };
            let mut note = listed_note("x", &title, &[]);
            note.path = format!("{dir}/{name}");
            note.content = Some(String::new());
            app.finish_create_note(note)
        }
        Effect::RenameNote { index, title } => {
            let old = app.notes()[index].path.clone();
            let parent = std::path::Path::new(&old).parent().unwrap().to_string_lossy().into_owned();
            let path = format!("{parent}/{}", note_file_name(&title, 0));
            let body = app.notes()[index].content.clone().unwrap_or_default();
            app.finish_rename(index, title, path, body);
            AppAction::Nothing
        }
        Effect::DeleteNote { index } => {
            app.finish_delete(index);
            AppAction::Nothing
        }
        Effect::MoveNote { index, destination, target } => {
            app.finish_move(index, destination, &target);
            AppAction::Nothing
        }
        Effect::CreateFolder { path, name } => {
            app.finish_create_folder(path, &name);
            AppAction::Nothing
        }
        Effect::DeleteFolder { path, name } => {
            app.finish_delete_folder(&path, &name, Ok(()));
            AppAction::Nothing
        }
        Effect::SaveConfig => AppAction::Nothing,
        Effect::Fail(e) => panic!("{e}"),
    }
}

/// Handles one key action the way the event loop does.
fn act(app: &mut App, action: KeyAction) -> AppAction {
    let effect = app.handle_action(action);
    let r = perform(app, effect);
    load(app);
    r
}

#[test]
fn refresh_rescans_disk() {
    let mut app = setup_app();

    assert_eq!(app.notes().len(), 3);

    // Another note appeared on disk.
    let effect = app.handle_action(KeyAction::Refresh);
    assert!(matches!(effect, Effect::Rescan));
    let mut on_disk = three_notes();
    on_disk.push(listed_note("delta.md", "Delta", &[]));
    app.finish_rescan(on_disk, Vec::new(), Vec::new());

    assert_eq!(app.notes().len(), 4);
    assert_eq!(app.state.filtered_indices.len(), 4);
    assert_eq!(app.state.status_message.as_deref(), Some("Refreshed from disk"));
}









// -- Construction ---------------------------------------------------------

#[test]
fn new_loads_notes_and_builds_indices() {
    let app = setup_app();

    assert_eq!(app.notes().len(), 3);
    assert_eq!(app.state.filtered_indices.len(), 3);
    assert!(!app.should_quit);
    assert_eq!(app.state.mode, AppMode::Normal);
}

#[test]
fn new_applies_config_sort_mode() {
    let app = setup_app();

    assert_eq!(app.state.sort_mode, SortMode::ByTitle);
    assert!(app.state.sort_ascending);

    // Sorted ascending by title: Alpha, Beta, Gamma
    let titles: Vec<&str> = app
        .state
        .filtered_indices
        .iter()
        .map(|&i| app.notes()[i].title.as_str())
        .collect();
    assert_eq!(titles, vec!["Alpha", "Beta", "Gamma"]);
}

#[test]
fn new_empty_directory() {
    let app = empty_app();

    assert!(app.notes().is_empty());
    assert!(app.state.filtered_indices.is_empty());
    assert_eq!(app.state.selected_index, 0);
}

// -- Normal mode navigation -----------------------------------------------

#[test]
fn navigate_down_increments_index() {
    let mut app = setup_app();

    assert_eq!(app.state.selected_index, 0);
    act(&mut app, KeyAction::NavigateDown);
    assert_eq!(app.state.selected_index, 1);
    act(&mut app, KeyAction::NavigateDown);
    assert_eq!(app.state.selected_index, 2);
}

#[test]
fn navigate_down_clamps_at_end() {
    let mut app = setup_app();

    app.state.selected_index = 2;
    act(&mut app, KeyAction::NavigateDown);
    assert_eq!(app.state.selected_index, 2);
}

#[test]
fn navigate_up_decrements_index() {
    let mut app = setup_app();

    app.state.selected_index = 2;
    act(&mut app, KeyAction::NavigateUp);
    assert_eq!(app.state.selected_index, 1);
}

#[test]
fn navigate_up_clamps_at_zero() {
    let mut app = setup_app();

    assert_eq!(app.state.selected_index, 0);
    act(&mut app, KeyAction::NavigateUp);
    assert_eq!(app.state.selected_index, 0);
}

#[test]
fn navigate_resets_scroll_offset() {
    let mut app = setup_app();

    app.state.scroll_offset = 42;
    act(&mut app, KeyAction::NavigateDown);
    assert_eq!(app.state.scroll_offset, 0);
}

// -- Mode transitions -----------------------------------------------------

#[test]
fn create_enters_create_mode() {
    let mut app = setup_app();

    act(&mut app, KeyAction::Create);
    assert_eq!(app.state.mode, AppMode::CreateNote);
    assert!(app.state.input_buffer.is_empty());
}

#[test]
fn delete_enters_confirm_mode() {
    let mut app = setup_app();

    act(&mut app, KeyAction::Delete);
    assert_eq!(app.state.mode, AppMode::ConfirmDelete);
}

#[test]
fn delete_noop_when_no_notes() {
    let mut app = empty_app();

    act(&mut app, KeyAction::Delete);
    assert_eq!(app.state.mode, AppMode::Normal);
}

#[test]
fn search_enters_search_mode() {
    let mut app = setup_app();

    app.state.search_query = "old query".to_string();
    act(&mut app, KeyAction::Search);
    assert_eq!(app.state.mode, AppMode::Search);
    assert!(app.state.search_query.is_empty());
}

#[test]
fn tag_filter_enters_tag_filter_mode() {
    let mut app = setup_app();

    act(&mut app, KeyAction::TagFilter);
    assert_eq!(app.state.mode, AppMode::TagFilter);
    assert_eq!(app.tag_filter_index, 0);
}

#[test]
fn sort_enters_sort_menu_mode() {
    let mut app = setup_app();

    act(&mut app, KeyAction::Sort);
    assert_eq!(app.state.mode, AppMode::SortMenu);
    // Current sort mode is ByTitle (index 2)
    assert_eq!(app.sort_menu_index, 2);
}

#[test]
fn help_enters_help_mode() {
    let mut app = setup_app();

    act(&mut app, KeyAction::Help);
    assert_eq!(app.state.mode, AppMode::Help);
}

#[test]
fn help_cancel_returns_to_normal() {
    let mut app = setup_app();

    app.state.mode = AppMode::Help;
    act(&mut app, KeyAction::Cancel);
    assert_eq!(app.state.mode, AppMode::Normal);
}

#[test]
fn rename_enters_rename_mode_with_current_title() {
    let mut app = setup_app();

    act(&mut app, KeyAction::Rename);
    assert_eq!(app.state.mode, AppMode::Rename);
    // The first note in sorted order is "Alpha"
    assert!(!app.state.input_buffer.is_empty());
}

#[test]
fn rename_noop_when_no_notes() {
    let mut app = empty_app();

    act(&mut app, KeyAction::Rename);
    assert_eq!(app.state.mode, AppMode::Normal);
}

// -- Quit -----------------------------------------------------------------

#[test]
fn quit_sets_flag_and_returns_quit_action() {
    let mut app = setup_app();

    let action = act(&mut app, KeyAction::Quit);
    assert!(app.should_quit);
    assert_eq!(action, AppAction::Quit);
}

// -- Toggle focus ---------------------------------------------------------

#[test]
fn toggle_focus_cycles() {
    let mut app = setup_app();

    assert_eq!(app.state.focus, PanelFocus::SidePanel);
    act(&mut app, KeyAction::ToggleFocus);
    assert_eq!(app.state.focus, PanelFocus::MainPanel);
    act(&mut app, KeyAction::ToggleFocus);
    assert_eq!(app.state.focus, PanelFocus::SidePanel);
}

// -- Scroll ---------------------------------------------------------------

#[test]
fn scroll_up_down() {
    let mut app = setup_app();

    act(&mut app, KeyAction::ScrollDown);
    assert_eq!(app.state.scroll_offset, 1);
    act(&mut app, KeyAction::ScrollDown);
    assert_eq!(app.state.scroll_offset, 2);
    act(&mut app, KeyAction::ScrollUp);
    assert_eq!(app.state.scroll_offset, 1);
}

#[test]
fn scroll_up_clamps_at_zero() {
    let mut app = setup_app();

    assert_eq!(app.state.scroll_offset, 0);
    act(&mut app, KeyAction::ScrollUp);
    assert_eq!(app.state.scroll_offset, 0);
}

#[test]
fn page_up_down() {
    let mut app = setup_app();

    act(&mut app, KeyAction::PageDown);
    assert_eq!(app.state.scroll_offset, 10);
    act(&mut app, KeyAction::PageUp);
    assert_eq!(app.state.scroll_offset, 0);
}

#[test]
fn home_end() {
    let mut app = setup_app();

    // Build markdown cache so max_scroll_offset() returns Some
    app.ensure_markdown_cache(80);
    let max = app.max_scroll_offset().unwrap_or(0);

    act(&mut app, KeyAction::End);
    assert_eq!(app.state.scroll_offset, max);
    act(&mut app, KeyAction::Home);
    assert_eq!(app.state.scroll_offset, 0);
}

#[test]
fn scroll_down_clamps_at_max() {
    let mut app = setup_app();
    app.ensure_markdown_cache(80);
    let max = app.max_scroll_offset().unwrap_or(0);

    // Set scroll near max and try scrolling past
    app.state.scroll_offset = max;
    act(&mut app, KeyAction::ScrollDown);
    assert_eq!(app.state.scroll_offset, max);
}

#[test]
fn page_down_clamps_at_max() {
    let mut app = setup_app();
    app.ensure_markdown_cache(80);
    let max = app.max_scroll_offset().unwrap_or(0);

    app.state.scroll_offset = max.saturating_sub(5);
    act(&mut app, KeyAction::PageDown);
    assert_eq!(app.state.scroll_offset, max);
}

// -- Cancel clears search and filter --------------------------------------

#[test]
fn cancel_in_normal_clears_search_and_filter() {
    let mut app = setup_app();

    app.state.search_query = "test".to_string();
    app.state.active_tag_filter = Some("rust".to_string());
    act(&mut app, KeyAction::Cancel);

    assert!(app.state.search_query.is_empty());
    assert!(app.state.active_tag_filter.is_none());
    assert_eq!(app.state.filtered_indices.len(), 3);
}

// -- Search mode ----------------------------------------------------------

#[test]
fn search_char_appends_and_filters() {
    let mut app = setup_app();

    app.state.mode = AppMode::Search;
    act(&mut app, KeyAction::Char('a'));
    assert_eq!(app.state.search_query, "a");
    // "Alpha" should match "a", others may or may not
    assert!(!app.state.filtered_indices.is_empty());
}

#[test]
fn search_backspace_pops() {
    let mut app = setup_app();

    app.state.mode = AppMode::Search;
    app.state.search_query = "ab".to_string();
    act(&mut app, KeyAction::Backspace);
    assert_eq!(app.state.search_query, "a");
}

#[test]
fn search_select_confirms() {
    let mut app = setup_app();

    app.state.mode = AppMode::Search;
    act(&mut app, KeyAction::Select);
    assert_eq!(app.state.mode, AppMode::Normal);
}

#[test]
fn search_cancel_clears_query_and_returns() {
    let mut app = setup_app();

    app.state.mode = AppMode::Search;
    app.state.search_query = "test".to_string();
    act(&mut app, KeyAction::Cancel);

    assert_eq!(app.state.mode, AppMode::Normal);
    assert!(app.state.search_query.is_empty());
    assert_eq!(app.state.filtered_indices.len(), 3);
}

#[test]
fn search_navigate_within_results() {
    let mut app = setup_app();

    app.state.mode = AppMode::Search;
    act(&mut app, KeyAction::NavigateDown);
    assert_eq!(app.state.selected_index, 1);
    act(&mut app, KeyAction::NavigateUp);
    assert_eq!(app.state.selected_index, 0);
}

// -- CreateNote mode ------------------------------------------------------

#[test]
fn create_note_typing() {
    let mut app = setup_app();

    app.state.mode = AppMode::CreateNote;
    act(&mut app, KeyAction::Char('H'));
    act(&mut app, KeyAction::Char('i'));
    assert_eq!(app.state.input_buffer, "Hi");
}

#[test]
fn create_note_select_creates_and_opens() {
    let mut app = setup_app();

    app.state.mode = AppMode::CreateNote;
    app.state.input_buffer = "New Note".to_string();
    let action = act(&mut app, KeyAction::Select);

    assert_eq!(app.state.mode, AppMode::Normal);
    assert_eq!(app.notes().len(), 4);
    assert!(matches!(action, AppAction::OpenEditor(_)));
}

#[test]
fn create_note_empty_title_cancels() {
    let mut app = setup_app();

    app.state.mode = AppMode::CreateNote;
    app.state.input_buffer.clear();
    let action = act(&mut app, KeyAction::Select);

    assert_eq!(app.state.mode, AppMode::Normal);
    assert_eq!(app.notes().len(), 3);
    assert_eq!(action, AppAction::Nothing);
}

#[test]
fn create_note_cancel_returns() {
    let mut app = setup_app();

    app.state.mode = AppMode::CreateNote;
    app.state.input_buffer = "test".to_string();
    act(&mut app, KeyAction::Cancel);

    assert_eq!(app.state.mode, AppMode::Normal);
    assert_eq!(app.notes().len(), 3);
}

// -- Rename mode ----------------------------------------------------------

#[test]
fn rename_select_renames() {
    let mut app = setup_app();

    // Enter rename mode for the first note
    act(&mut app, KeyAction::Rename);
    assert_eq!(app.state.mode, AppMode::Rename);

    app.state.input_buffer = "Renamed Alpha".to_string();
    act(&mut app, KeyAction::Select);

    assert_eq!(app.state.mode, AppMode::Normal);
    // Find the renamed note
    let has_renamed = app.notes().iter().any(|n| n.title == "Renamed Alpha");
    assert!(has_renamed);
}

#[test]
fn rename_cancel_returns() {
    let mut app = setup_app();

    app.state.mode = AppMode::Rename;
    act(&mut app, KeyAction::Cancel);
    assert_eq!(app.state.mode, AppMode::Normal);
}

// -- ConfirmDelete mode ---------------------------------------------------

#[test]
fn confirm_delete_select_deletes() {
    let mut app = setup_app();

    assert_eq!(app.notes().len(), 3);
    app.state.mode = AppMode::ConfirmDelete;
    act(&mut app, KeyAction::Select);

    assert_eq!(app.state.mode, AppMode::Normal);
    assert_eq!(app.notes().len(), 2);
}

#[test]
fn confirm_delete_cancel_returns() {
    let mut app = setup_app();

    app.state.mode = AppMode::ConfirmDelete;
    act(&mut app, KeyAction::Cancel);

    assert_eq!(app.state.mode, AppMode::Normal);
    assert_eq!(app.notes().len(), 3);
}

#[test]
fn confirm_delete_clamps_index() {
    let mut app = setup_app();

    // Select the last note
    app.state.selected_index = 2;
    app.state.mode = AppMode::ConfirmDelete;
    act(&mut app, KeyAction::Select);

    // selected_index should be clamped to new max
    assert!(app.state.selected_index <= app.state.filtered_indices.len().saturating_sub(1));
}

// -- TagFilter mode -------------------------------------------------------

#[test]
fn tag_filter_navigate() {
    let mut app = setup_app();

    app.state.mode = AppMode::TagFilter;
    app.tag_filter_index = 0;

    act(&mut app, KeyAction::NavigateDown);
    assert_eq!(app.tag_filter_index, 1);
    act(&mut app, KeyAction::NavigateDown);
    assert_eq!(app.tag_filter_index, 2);
}

#[test]
fn tag_filter_navigate_clamps_up() {
    let mut app = setup_app();

    app.state.mode = AppMode::TagFilter;
    app.tag_filter_index = 0;
    act(&mut app, KeyAction::NavigateUp);
    assert_eq!(app.tag_filter_index, 0);
}

#[test]
fn tag_filter_select_all_clears() {
    let mut app = setup_app();

    app.state.active_tag_filter = Some("rust".to_string());
    app.state.mode = AppMode::TagFilter;
    app.tag_filter_index = 0; // "(All notes)"
    act(&mut app, KeyAction::Select);

    assert_eq!(app.state.mode, AppMode::Normal);
    assert!(app.state.active_tag_filter.is_none());
    assert_eq!(app.state.filtered_indices.len(), 3);
}

#[test]
fn tag_filter_select_tag_filters() {
    let mut app = setup_app();

    app.state.mode = AppMode::TagFilter;
    // Items: ["(All notes)", "python", "rust", "tui"]
    // index 2 = "rust"
    app.tag_filter_index = 2;
    act(&mut app, KeyAction::Select);

    assert_eq!(app.state.mode, AppMode::Normal);
    assert_eq!(app.state.active_tag_filter.as_deref(), Some("rust"));
    // Only Alpha and Beta have "rust" tag
    assert_eq!(app.state.filtered_indices.len(), 2);
}

#[test]
fn tag_filter_cancel_returns() {
    let mut app = setup_app();

    app.state.mode = AppMode::TagFilter;
    act(&mut app, KeyAction::Cancel);
    assert_eq!(app.state.mode, AppMode::Normal);
}

// -- SortMenu mode --------------------------------------------------------

#[test]
fn sort_menu_navigate() {
    let mut app = setup_app();

    app.state.mode = AppMode::SortMenu;
    app.sort_menu_index = 0;

    act(&mut app, KeyAction::NavigateDown);
    assert_eq!(app.sort_menu_index, 1);
    act(&mut app, KeyAction::NavigateDown);
    assert_eq!(app.sort_menu_index, 2);
    // Clamps at 2
    act(&mut app, KeyAction::NavigateDown);
    assert_eq!(app.sort_menu_index, 2);
}

#[test]
fn sort_menu_select_changes_mode() {
    let mut app = setup_app();

    app.state.mode = AppMode::SortMenu;
    app.sort_menu_index = 0; // ByModified
    act(&mut app, KeyAction::Select);

    assert_eq!(app.state.mode, AppMode::Normal);
    assert_eq!(app.state.sort_mode, SortMode::ByModified);
}

#[test]
fn sort_menu_select_same_toggles_ascending() {
    let mut app = setup_app();

    // Current mode is ByTitle (ascending)
    assert_eq!(app.state.sort_mode, SortMode::ByTitle);
    assert!(app.state.sort_ascending);

    app.state.mode = AppMode::SortMenu;
    app.sort_menu_index = 2; // ByTitle again
    act(&mut app, KeyAction::Select);

    assert_eq!(app.state.sort_mode, SortMode::ByTitle);
    assert!(!app.state.sort_ascending); // toggled
}

#[test]
fn sort_menu_cancel_returns() {
    let mut app = setup_app();

    app.state.mode = AppMode::SortMenu;
    act(&mut app, KeyAction::Cancel);
    assert_eq!(app.state.mode, AppMode::Normal);
}

// -- Refilter -------------------------------------------------------------

#[test]
fn refilter_respects_tag_and_search() {
    let mut app = setup_app();

    // Filter by "rust" tag
    app.state.active_tag_filter = Some("rust".to_string());
    app.refilter();
    assert_eq!(app.state.filtered_indices.len(), 2);

    // Further filter by search "alpha"
    app.state.search_query = "alpha".to_string();
    app.refilter();
    assert_eq!(app.state.filtered_indices.len(), 1);
}

#[test]
fn refilter_clamps_selected_index() {
    let mut app = setup_app();

    app.state.selected_index = 2;
    app.state.search_query = "nonexistent_xyz".to_string();
    app.refilter();
    assert_eq!(app.state.selected_index, 0);
}

// -- selected_note_real_index ---------------------------------------------

#[test]
fn selected_note_real_index_returns_correct() {
    let app = setup_app();

    let real = app.selected_note_real_index();
    assert!(real.is_some());
    // The first filtered note's real index should point to a valid note
    let idx = real.unwrap();
    assert!(idx < app.notes().len());
}

#[test]
fn selected_note_real_index_none_when_empty() {
    let app = empty_app();

    assert!(app.selected_note_real_index().is_none());
}

// -- Refresh --------------------------------------------------------------

// -- Select / Edit returns OpenEditor action ------------------------------

#[test]
fn select_returns_open_editor() {
    let mut app = setup_app();

    let action = act(&mut app, KeyAction::Select);
    assert!(matches!(action, AppAction::OpenEditor(_)));
}

#[test]
fn view_read_only_returns_open_viewer() {
    let mut app = setup_app();

    let action = act(&mut app, KeyAction::ViewReadOnly);
    assert!(matches!(action, AppAction::OpenViewer(_)));
}

#[test]
fn view_read_only_noop_when_no_notes() {
    let mut app = empty_app();

    let action = act(&mut app, KeyAction::ViewReadOnly);
    assert_eq!(action, AppAction::Nothing);
}

#[test]
fn select_noop_when_no_notes() {
    let mut app = empty_app();

    let action = act(&mut app, KeyAction::Select);
    assert_eq!(action, AppAction::Nothing);
}

// -- set_status -----------------------------------------------------------

#[test]
fn set_status_sets_message() {
    let mut app = setup_app();

    app.set_status("Hello!".to_string());
    assert_eq!(app.state.status_message.as_deref(), Some("Hello!"));
}
