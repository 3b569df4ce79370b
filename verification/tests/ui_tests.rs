use chrono::Local;
use deez_notes::app::{AppMode, AppState, PanelFocus};
use deez_notes::markdown::Line;
use deez_notes::note::{Note, Timestamp};
use deez_notes::settings::UiConfig;
use deez_notes::theme::{Color, Theme};
use deez_notes::ui::{
    filter_indicator, left_info, main_panel_border, note_entry, note_entry_with_date, search_bar_line, selected_note_content, shortcut_spans, status_layout,
    side_panel_lines, side_panel_title, update_banner_text, NoteContent,
};
use deez_notes::update::{InstallMethod, UpdateStatus};

fn ts(dt: chrono::DateTime<chrono::Local>) -> Timestamp {
    Timestamp { secs: dt.timestamp(), nanos: dt.timestamp_subsec_nanos() }
}

fn line_text(l: &Line) -> String {
    l.spans.iter().map(|s| s.content.as_str()).collect()
}

fn make_note(title: &str, content: Option<&str>, tags: Vec<String>) -> Note {
    Note {
        path: format!("/tmp/{}.md", title),
        title: title.to_string(),
        content: content.map(|s| s.to_string()),
        tags,
        created: ts(Local::now()),
        modified: ts(Local::now()),
    }
}

// -- Search bar ---------------------------------------------------------------

#[test]
fn empty_query_normal_mode_shows_placeholder() {
    let state = AppState::default();
    let theme = Theme::terminal(&[]);
    let content = line_text(&search_bar_line(&state, &theme));
    assert!(content.contains("Ctrl+F"), "Placeholder should mention Ctrl+F, got: {content:?}");
}

#[test]
fn active_search_shows_cursor() {
    let mut state = AppState::default();
    state.mode = AppMode::Search;
    state.search_query = "hello".to_string();
    let theme = Theme::terminal(&[]);
    let content = line_text(&search_bar_line(&state, &theme));
    assert!(content.contains("hello"), "Should contain search query, got: {content:?}");
    assert!(content.ends_with('\u{258C}'));
}

#[test]
fn search_bar_renders_without_panic() {
    let state = AppState::default();
    let theme = Theme::terminal(&[]);
    let line = search_bar_line(&state, &theme);
    assert_eq!(line.spans.len(), 2);
    assert_eq!(line.spans[0].content, " Search: ");
}

#[test]
fn nonempty_query_normal_mode_shows_query() {
    let mut state = AppState::default();
    state.search_query = "rust".to_string();
    let theme = Theme::terminal(&[]);
    let line = search_bar_line(&state, &theme);
    let content = line_text(&line);
    assert!(content.contains("rust"), "Should show active filter query, got: {content:?}");
    assert_eq!(line.spans[1].style.fg, Some(theme.highlight));
}

// -- Status bar -----------------------------------------------------------------

#[test]
fn status_bar_empty_state_renders_without_panic() {
    let theme = Theme::terminal(&[]);
    let state = AppState::default();
    assert_eq!(left_info(&state, 0), "0 notes");
    let spans = shortcut_spans(state.mode, &theme);
    assert_eq!(spans[0].content, "^N");
    assert_eq!(spans[1].content, " New");
}

#[test]
fn with_filter_shows_tag() {
    let mut state = AppState::default();
    state.active_tag_filter = Some("rust".to_string());
    let rendered = left_info(&state, 0);
    assert!(rendered.contains("filtered by: rust"), "Expected 'filtered by: rust' in: {}", rendered);
    assert_eq!(rendered, "0/0 notes (filtered by: rust)");
}

#[test]
fn search_results_count_in_status() {
    let mut state = AppState::default();
    state.search_query = "al".to_string();
    state.filtered_indices = vec![0, 2];
    assert_eq!(left_info(&state, 3), "2 results for 'al'");
}

#[test]
fn search_mode_shortcuts_end_with_prompt() {
    let theme = Theme::terminal(&[]);
    let spans = shortcut_spans(AppMode::Search, &theme);
    let text: String = spans.iter().map(|s| s.content.as_str()).collect();
    assert_eq!(text, "Esc Cancel  Enter Select  Type to search...");
    assert!(spans[0].style.bold);
    assert_eq!(spans[1].style.fg, Some(theme.fg_secondary));
}

// -- Update banner --------------------------------------------------------------

#[test]
fn renders_available_update() {
    let status = UpdateStatus::Available {
        current: "0.3.0".to_string(),
        latest: "0.4.0".to_string(),
        install_method: InstallMethod::Cargo,
    };
    let (main, hint) = update_banner_text(&status).unwrap();
    let content = format!("{main}{hint}");
    assert!(content.contains("0.3.0"), "Should show current version");
    assert!(content.contains("0.4.0"), "Should show latest version");
    assert!(content.contains("cargo install"), "Should show cargo command");
    assert_eq!(main, " Update available: v0.3.0 \u{2192} v0.4.0");
    assert_eq!(hint, " | cargo install deez-notes");
}

#[test]
fn up_to_date_renders_nothing() {
    let status = UpdateStatus::UpToDate;
    assert!(update_banner_text(&status).is_none());
}

// -- Side panel -----------------------------------------------------------------

#[test]
fn empty_list_renders_without_panic() {
    let state = AppState::default();
    let notes: Vec<Note> = vec![];
    let ui_config = UiConfig::default();
    let tag_colors: Vec<String> = vec!["cyan".into(), "magenta".into()];
    let theme = Theme::terminal(&tag_colors);
    assert!(side_panel_lines(&state, &notes, &ui_config, &theme).is_empty());
    assert_eq!(side_panel_title(&state), " Notes (0) ");
}

#[test]
fn with_notes_renders_without_panic() {
    let notes = vec![
        make_note("First Note", None, vec!["rust".into(), "test".into()]),
        make_note("Second Note", None, vec!["python".into()]),
        make_note("Third Note", None, vec![]),
    ];
    let mut state = AppState::default();
    state.filtered_indices = vec![0, 1, 2];
    state.selected_index = 1;
    let ui_config = UiConfig::default();
    let tag_colors: Vec<String> = vec!["cyan".into(), "magenta".into(), "yellow".into()];
    let theme = Theme::terminal(&tag_colors);
    let lines = side_panel_lines(&state, &notes, &ui_config, &theme);
    assert_eq!(lines.len(), 3);
    assert_eq!(lines[0].spans[0].content, "First Note");
    assert!(lines[0].spans[1].content.starts_with(" | "));
    assert_eq!(lines[0].spans[2].content, " [rust]");
    assert_eq!(lines[0].spans[2].style.fg, Some(Color::Cyan));
    assert_eq!(lines[0].spans[3].style.fg, Some(Color::Magenta));
    assert_eq!(lines[2].spans.len(), 2);
}

#[test]
fn folder_entries_come_first() {
    let notes = vec![make_note("Only", None, vec![])];
    let mut state = AppState::default();
    state.current_folder = "work".to_string();
    state.display_folders = vec!["..".to_string(), "sub".to_string()];
    state.filtered_indices = vec![0];
    let theme = Theme::terminal(&[]);
    let lines = side_panel_lines(&state, &notes, &UiConfig::default(), &theme);
    assert_eq!(line_text(&lines[0]), "\u{1F4C1} ..");
    assert_eq!(line_text(&lines[1]), "\u{1F4C1} sub/");
    assert_eq!(side_panel_title(&state), " Notes (1) \u{2014} /work ");
}

// -- Filter indicator -------------------------------------------------------------

#[test]
fn renders_indicator_when_filter_active() {
    let mut state = AppState::default();
    state.active_tag_filter = Some("rust".to_string());
    let theme = Theme::terminal(&[]);
    let rendered = line_text(&filter_indicator(&state, &theme).unwrap());
    assert!(rendered.contains("Filter:"));
    assert!(rendered.contains("[rust]"));
}

#[test]
fn filter_bar_renders_without_panic() {
    let state = AppState::default();
    let theme = Theme::terminal(&[]);
    assert!(filter_indicator(&state, &theme).is_none());
}

// -- Main panel -------------------------------------------------------------------

#[test]
fn main_panel_empty_state_renders_without_panic() {
    let state = AppState::default();
    let notes: Vec<Note> = vec![];
    assert!(matches!(selected_note_content(&state, &notes), NoteContent::Nothing));
}

#[test]
fn with_content_renders_without_panic() {
    let notes = vec![make_note("Test Note", Some("# Hello\n\nSome **bold** text."), vec![])];
    let mut state = AppState::default();
    state.filtered_indices = vec![0];
    match selected_note_content(&state, &notes) {
        NoteContent::Ready { title, content } => {
            assert_eq!(title, "Test Note");
            assert_eq!(content, "# Hello\n\nSome **bold** text.");
        }
        _ => panic!("expected the note's content"),
    }
}

#[test]
fn loading_state_renders_without_panic() {
    let notes = vec![make_note("Lazy Note", None, vec![])];
    let mut state = AppState::default();
    state.filtered_indices = vec![0];
    match selected_note_content(&state, &notes) {
        NoteContent::Loading { title } => assert_eq!(title, "Lazy Note"),
        _ => panic!("expected the loading state"),
    }
}

#[test]
fn focused_panel_uses_cyan_border() {
    let mut state = AppState::default();
    state.focus = PanelFocus::MainPanel;
    assert_eq!(main_panel_border(&state), Some(Color::Cyan));
    state.focus = PanelFocus::SidePanel;
    assert_eq!(main_panel_border(&state), None);
}

#[test]
fn note_entry_shows_the_given_date() {
    let note = make_note("Dated", None, vec!["t".to_string()]);
    let mut ui = UiConfig::default();
    ui.show_dates = true;
    ui.show_tags = true;
    let theme = Theme::terminal(&[]);
    let line = note_entry_with_date(&note, &ui, &theme, "2025-06-01");
    assert_eq!(line_text(&line), "Dated | 2025-06-01 [t]");
    assert_eq!(line.spans[1].style.fg, Some(theme.fg_secondary));
}

#[test]
fn unreadable_date_format_does_not_panic() {
    let note = make_note("Odd", None, Vec::new());
    let mut ui = UiConfig::default();
    ui.show_dates = true;
    ui.show_tags = false;
    ui.date_format = "%Q %".to_string();
    let theme = Theme::terminal(&[]);
    let line = note_entry(&note, &ui, &theme);
    assert_eq!(line_text(&line), "Odd | ");
}

#[test]
fn status_bar_layout_centres_the_message() {
    // 40 cells: left text of 10, shortcuts of 10, message of 4.
    let l = status_layout(40, 10, 10, 4);
    assert_eq!(l.left_shown, 10);
    assert_eq!(l.right_start, Some(30));
    // Room between: 40 - (10 + 2 + 10 + 2) = 16; start 12 + (16 - 4) / 2 = 18.
    assert_eq!(l.message, Some((18, 4)));
}

#[test]
fn status_bar_layout_on_a_narrow_bar() {
    let l = status_layout(8, 12, 8, 5);
    assert_eq!(l.left_shown, 8);
    assert_eq!(l.right_start, None);
    assert_eq!(l.message, None);
    let l = status_layout(20, 4, 6, 50);
    assert_eq!(l.message, Some((6, 6)));
}
