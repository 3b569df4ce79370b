use deez_notes::app::SortMode;
use deez_notes::settings::Config;
use deez_notes::update::version_from_tag;

#[test]
fn default_config_has_expected_values() {
    let cfg = Config::default();

    assert!(
        cfg.general.notes_dir.ends_with("notes"),
        "notes_dir should end with 'notes', got: {}",
        cfg.general.notes_dir
    );
    assert!(cfg.general.editor.is_empty());
    assert!(cfg.general.pager.is_empty());
    assert!(cfg.general.pager_args.is_empty());

    assert_eq!(cfg.ui.side_panel_width_percent, 30);
    assert!(cfg.ui.show_tags);
    assert!(cfg.ui.show_dates);
    assert_eq!(cfg.ui.date_format, "%Y-%m-%d");

    assert_eq!(cfg.sort.default_mode, "modified");
    assert!(!cfg.sort.default_ascending);

    assert_eq!(cfg.colors.tag_colors.len(), 6);
    assert_eq!(cfg.colors.tag_colors[0], "cyan");
}

#[test]
fn resolve_sort_mode_known_values() {
    let mut cfg = Config::default();

    cfg.sort.default_mode = "modified".to_string();
    assert_eq!(cfg.resolve_sort_mode(), SortMode::ByModified);

    cfg.sort.default_mode = "created".to_string();
    assert_eq!(cfg.resolve_sort_mode(), SortMode::ByCreated);

    cfg.sort.default_mode = "title".to_string();
    assert_eq!(cfg.resolve_sort_mode(), SortMode::ByTitle);
}

#[test]
fn resolve_sort_mode_unknown_falls_back_to_modified() {
    let mut cfg = Config::default();
    cfg.sort.default_mode = "nonsense".to_string();
    assert_eq!(cfg.resolve_sort_mode(), SortMode::ByModified);
}

#[test]
fn strip_v_prefix() {
    let tag = "v1.2.3";
    let version = version_from_tag(tag);
    assert_eq!(version, "1.2.3");
}

#[test]
fn no_v_prefix_unchanged() {
    let tag = "1.2.3";
    let version = version_from_tag(tag);
    assert_eq!(version, "1.2.3");
}

#[test]
fn resolve_notes_dir_expands_tilde() {
    let mut cfg = Config::default();
    cfg.general.notes_dir = "~/my-notes".to_string();

    let resolved = cfg.resolve_notes_dir();

    if let Some(home) = dirs::home_dir() {
        assert_eq!(std::path::PathBuf::from(resolved), home.join("my-notes"));
    }
}

#[test]
fn resolve_notes_dir_absolute_path_unchanged() {
    let mut cfg = Config::default();
    cfg.general.notes_dir = "/srv/notes".to_string();

    assert_eq!(std::path::PathBuf::from(cfg.resolve_notes_dir()), std::path::PathBuf::from("/srv/notes"));
}
