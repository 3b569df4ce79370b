//! Building the application state from the configuration and the scanned
//! notes directory.
use vstd::prelude::*;
use crate::actions::{find_theme, theme_position};
use crate::app::{App, AppView, AppState, AppMode, PanelFocus};
use crate::browse::{with_display, refreshed, sizes_ok};
use crate::note::decimal;
use crate::note_manager::{NoteManager, push_decimal_usize};
use crate::settings::{Config, opt_view, sort_mode_named};
use crate::theme::{Theme, ThemeView, builtin_views, custom_view};

verus! {

/// The themes offered: the built-in ones, then the custom ones.
#[verifier::opaque]
pub open spec fn theme_views(c: Config) -> Seq<ThemeView> {
    builtin_views(c.colors.tag_colors@) + c.themes@.map_values(|t: crate::settings::CustomThemeConfig| custom_view(t))
}

/// There are six built-in themes before the custom ones.
pub proof fn lemma_theme_views_len(c: Config)
    ensures
        theme_views(c).len() == 6 + c.themes@.len(),
{
    reveal(theme_views);
}

/// A theme position is a position of the list, when the list has themes.
pub proof fn lemma_theme_position_bound(themes: Seq<ThemeView>, name: Seq<char>, i: nat)
    requires
        themes.len() > 0,
    ensures
        crate::actions::theme_position_from(themes, name, i) < themes.len(),
    decreases themes.len() - i,
{
    if i < themes.len() && themes[i as int].name != name {
        lemma_theme_position_bound(themes, name, i + 1);
    }
}

/// The theme chosen at start: the saved one, or the first.
pub open spec fn startup_theme(c: Config) -> usize {
    if c.ui.default_theme@.len() == 0 {
        0
    } else {
        theme_position(theme_views(c), c.ui.default_theme@)
    }
}

/// The status shown at start.
pub open spec fn startup_status(nm: NoteManager) -> Option<Seq<char>> {
    if nm.scan_warnings@.len() == 0 {
        None
    } else {
        Some(decimal(nm.scan_warnings@.len()) + " note(s) skipped during scan"@)
    }
}

/// The state at start, before the display is built.
pub open spec fn startup_view(config: Config, config_path: Option<String>, nm: NoteManager) -> AppView {
    let themes = theme_views(config);
    let t = startup_theme(config);
    AppView {
        note_manager: nm,
        config: config,
        config_path: opt_view(config_path),
        current_theme: themes[t as int],
        available_themes: themes,
        sort_menu_index: 0,
        tag_filter_index: 0,
        theme_menu_index: t,
        move_folder_index: 0,
        should_quit: false,
        dirty: true,
        filtered_indices: Seq::empty(),
        selected_index: 0,
        search_query: Seq::empty(),
        active_tag_filter: None,
        sort_mode: sort_mode_named(config.sort.default_mode@),
        sort_ascending: config.sort.default_ascending,
        focus: PanelFocus::SidePanel,
        mode: AppMode::Normal,
        scroll_offset: 0,
        input_buffer: Seq::empty(),
        status_message: startup_status(nm),
        cached_markdown: None,
        current_folder: Seq::empty(),
        display_folders: Seq::empty(),
    }
}

/// The built-in themes, then the custom themes of the configuration.
fn all_themes(config: &Config) -> (r: Vec<Theme>)
    ensures
        r@.map_values(|t: Theme| t@) == theme_views(*config),
{
    reveal(theme_views);
    let mut themes = Theme::builtin_themes(config.colors.tag_colors.as_slice());
    let ghost base = builtin_views(config.colors.tag_colors@);
    let ghost custom = config.themes@.map_values(|t: crate::settings::CustomThemeConfig| custom_view(t));
    let mut i: usize = 0;
    while i < config.themes.len()
        invariant
            i <= config.themes@.len(),
            base == builtin_views(config.colors.tag_colors@),
            custom == config.themes@.map_values(|t: crate::settings::CustomThemeConfig| custom_view(t)),
            themes@.map_values(|t: Theme| t@) == base + custom.take(i as int),
        decreases config.themes@.len() - i,
    {
        let t = Theme::from_config(&config.themes[i]);
        let ghost before = themes@;
        themes.push(t);
        proof {
            assert(custom.take(i + 1) =~= custom.take(i as int).push(custom[i as int]));
            assert(themes@.map_values(|t: Theme| t@) =~= before.map_values(|t: Theme| t@).push(t@));
        }
        i = i + 1;
    }
    assert(custom.take(config.themes@.len() as int) =~= custom);
    themes
}

/// The themes offered and the position of the one chosen at start.
fn startup_themes(config: &Config) -> (r: (Vec<Theme>, usize))
    ensures
        r.0@.map_values(|t: Theme| t@) == theme_views(*config),
        r.1 == startup_theme(*config),
        r.1 < r.0@.len(),
{
    let themes = all_themes(config);
    let t = if config.ui.default_theme.as_str().unicode_len() == 0 {
        0
    } else {
        find_theme(themes.as_slice(), config.ui.default_theme.as_str())
    };
    proof {
        lemma_theme_views_len(*config);
        lemma_theme_position_bound(theme_views(*config), config.ui.default_theme@, 0);
    }
    (themes, t)
}

impl App {
    /// The application for a scanned notes directory: the configured sort,
    /// the saved theme (or the first), the root folder displayed, and a
    /// note of how many notes the scan skipped.
    pub fn new(config: Config, config_path: Option<String>, note_manager: NoteManager) -> (r: App)
        requires
            sizes_ok(note_manager),
        ensures
            r@ == with_display(startup_view(config, config_path, note_manager), r@),
            refreshed(r, 0),
    {
        let ghost cfg = config;
        let ghost nm0 = note_manager;
        let ghost path0 = config_path;
        let (themes, t) = startup_themes(&config);
        let current = crate::app::clone_theme(&themes[t]);
        let ghost views = themes@.map_values(|t: Theme| t@);
        assert(views[t as int] == themes@[t as int]@);
        let mut state = AppState::default();
        state.sort_mode = config.resolve_sort_mode();
        state.sort_ascending = config.sort.default_ascending;
        let skipped = note_manager.scan_warnings.len();
        let mut app = App {
            note_manager,
            config,
            config_path,
            state,
            current_theme: current,
            available_themes: themes,
            sort_menu_index: 0,
            tag_filter_index: 0,
            theme_menu_index: t,
            move_folder_index: 0,
            should_quit: false,
            dirty: true,
        };
        assert(app.state.search_query@ =~= Seq::<char>::empty());
        assert(app.state.input_buffer@ =~= Seq::<char>::empty());
        assert(app.state.current_folder@ =~= Seq::<char>::empty());
        let ghost sv = startup_view(cfg, path0, nm0);
        assert(app@ == with_display((AppView { status_message: None, ..sv }), app@));
        app.refilter();
        if skipped > 0 {
            let mut msg = String::new();
            push_decimal_usize(&mut msg, skipped);
            msg.append(" note(s) skipped during scan");
            assert(msg@ =~= decimal(skipped as nat) + " note(s) skipped during scan"@);
            app.set_status(msg);
        }
        app
    }
}

} // verus!
