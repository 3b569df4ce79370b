//! Application configuration: its sections, their defaults, and the
//! helpers that turn configured strings into paths and sort modes.
use vstd::prelude::*;
use crate::app::SortMode;
use crate::paths::{joined_path, join_path};
use crate::text::{str_eq, starts_with, chars_of, string_from_chars, clone_strings};

verus! {

/// Top-level application configuration.
pub struct Config {
    pub general: GeneralConfig,
    pub ui: UiConfig,
    pub sort: SortConfig,
    pub colors: ColorsConfig,
    /// User-defined themes, listed after the built-in ones.
    pub themes: Vec<CustomThemeConfig>,
}

/// A custom theme as written in the configuration file: colour names or
/// `#rrggbb` values for each role.
pub struct CustomThemeConfig {
    pub name: String,
    pub fg_primary: String,
    pub fg_secondary: String,
    pub accent: String,
    pub highlight: String,
    pub success: String,
    pub error: String,
    pub bg_main: String,
    pub bg_bar: String,
    pub bg_selection: String,
    pub fg_selection: String,
    pub tag_colors: Vec<String>,
}

/// General settings.
pub struct GeneralConfig {
    /// Notes directory; a leading `~` stands for the home directory.
    pub notes_dir: String,
    /// Preferred editor; empty means `$EDITOR`, then fallbacks.
    pub editor: String,
    /// Pager for the read-only view; empty means `cat`.
    pub pager: String,
    /// Arguments given to the pager before the file path.
    pub pager_args: Vec<String>,
    /// Whether to check for updates on startup.
    pub check_updates: bool,
}

/// Display settings.
pub struct UiConfig {
    /// Width of the side panel, in percent.
    pub side_panel_width_percent: u16,
    pub show_tags: bool,
    pub show_dates: bool,
    /// strftime-style date format.
    pub date_format: String,
    /// Whether search also looks at note bodies.
    pub search_content: bool,
    /// Name of the selected theme.
    pub default_theme: String,
}

/// Sort settings.
pub struct SortConfig {
    /// One of `modified`, `created`, `title`.
    pub default_mode: String,
    /// Ascending (A-Z, oldest first) when true.
    pub default_ascending: bool,
}

/// Colour settings.
pub struct ColorsConfig {
    /// Colour names cycled across tags.
    pub tag_colors: Vec<String>,
}

/// `dirs::home_dir`, as text. It reads the environment, so nothing is
/// claimed of the result.
#[verifier::external_body]
pub(crate) fn home_dir() -> (r: Option<String>) {
    dirs::home_dir().map(|h| h.to_string_lossy().into_owned())
}

/// The text of an optional string.
pub open spec fn opt_view(o: Option<String>) -> Option<Seq<char>> {
    match o {
        Some(s) => Some(s@),
        None => None,
    }
}

/// The default notes directory: `<home>/notes`, or `~/notes` without a home.
pub open spec fn default_notes_dir(home: Option<Seq<char>>) -> Seq<char> {
    match home {
        Some(h) => joined_path(h, "notes"@),
        None => "~/notes"@,
    }
}

impl GeneralConfig {
    /// The default general settings for the given home directory.
    pub fn with_home(home: Option<String>) -> (r: GeneralConfig)
        ensures
            r.notes_dir@ == default_notes_dir(opt_view(home)),
            r.editor@.len() == 0,
            r.pager@.len() == 0,
            r.pager_args@.len() == 0,
            r.check_updates,
    {
        let notes_dir = match home {
            Some(h) => join_path(h.as_str(), "notes"),
            None => String::from_str("~/notes"),
        };
        GeneralConfig {
            notes_dir,
            editor: String::new(),
            pager: String::new(),
            pager_args: Vec::new(),
            check_updates: true,
        }
    }
}

impl Default for GeneralConfig {
    /// Default general settings, with the notes directory under the
    /// current user's home directory.
    fn default() -> (r: GeneralConfig)
        ensures
            r.editor@.len() == 0,
            r.pager@.len() == 0,
            r.pager_args@.len() == 0,
            r.check_updates,
            exists|h: Option<Seq<char>>| r.notes_dir@ == default_notes_dir(h),
    {
        let home = home_dir();
        let r = GeneralConfig::with_home(home);
        assert(r.notes_dir@ == default_notes_dir(opt_view(home)));
        r
    }
}

impl Default for UiConfig {
    /// 30% side panel, tags and dates shown, ISO dates, content search on,
    /// no saved theme.
    fn default() -> (r: UiConfig)
        ensures
            r.side_panel_width_percent == 30,
            r.show_tags,
            r.show_dates,
            r.date_format@ == "%Y-%m-%d"@,
            r.search_content,
            r.default_theme@.len() == 0,
    {
        UiConfig {
            side_panel_width_percent: 30,
            show_tags: true,
            show_dates: true,
            date_format: String::from_str("%Y-%m-%d"),
            search_content: true,
            default_theme: String::new(),
        }
    }
}

impl Default for SortConfig {
    /// Newest modified first.
    fn default() -> (r: SortConfig)
        ensures
            r.default_mode@ == "modified"@,
            !r.default_ascending,
    {
        SortConfig { default_mode: String::from_str("modified"), default_ascending: false }
    }
}

/// The default tag colour names.
pub open spec fn default_tag_color_names() -> Seq<Seq<char>> {
    seq!["cyan"@, "magenta"@, "yellow"@, "green"@, "red"@, "blue"@]
}

impl Default for ColorsConfig {
    /// Cyan, magenta, yellow, green, red, blue.
    fn default() -> (r: ColorsConfig)
        ensures
            r.tag_colors@.map_values(|s: String| s@) == default_tag_color_names(),
    {
        let mut v: Vec<String> = Vec::new();
        v.push(String::from_str("cyan"));
        v.push(String::from_str("magenta"));
        v.push(String::from_str("yellow"));
        v.push(String::from_str("green"));
        v.push(String::from_str("red"));
        v.push(String::from_str("blue"));
        assert(v@.map_values(|s: String| s@) =~= default_tag_color_names());
        ColorsConfig { tag_colors: v }
    }
}

impl Default for Config {
    /// Every section at its default, and no custom themes.
    fn default() -> (r: Config)
        ensures
            r.ui.side_panel_width_percent == 30,
            r.ui.show_tags,
            r.ui.show_dates,
            r.ui.date_format@ == "%Y-%m-%d"@,
            r.ui.search_content,
            r.ui.default_theme@.len() == 0,
            r.sort.default_mode@ == "modified"@,
            !r.sort.default_ascending,
            r.colors.tag_colors@.map_values(|s: String| s@) == default_tag_color_names(),
            r.general.editor@.len() == 0,
            r.general.pager@.len() == 0,
            r.general.pager_args@.len() == 0,
            r.general.check_updates,
            exists|h: Option<Seq<char>>| r.general.notes_dir@ == default_notes_dir(h),
            r.themes@.len() == 0,
    {
        Config {
            general: GeneralConfig::default(),
            ui: UiConfig::default(),
            sort: SortConfig::default(),
            colors: ColorsConfig::default(),
            themes: Vec::new(),
        }
    }
}

/// The notes directory named by `raw`, with a leading `~` expanded to
/// `home` when there is one.
pub open spec fn expand_home_spec(raw: Seq<char>, home: Option<Seq<char>>) -> Seq<char> {
    if raw.len() >= 2 && raw.take(2) == "~/"@ && home is Some {
        joined_path(home->0, raw.skip(2))
    } else if raw == "~"@ && home is Some {
        home->0
    } else {
        raw
    }
}

/// Expands a leading `~/` (or a lone `~`) in `raw` to `home`.
pub fn expand_home(raw: &str, home: Option<String>) -> (r: String)
    ensures
        r@ == expand_home_spec(raw@, opt_view(home)),
{
    proof {
        reveal_strlit("~/");
        reveal_strlit("~");
    }
    if starts_with(raw, "~/") {
        if let Some(h) = &home {
            let cs = chars_of(raw);
            let rest = string_from_chars(&cs, 2);
            return join_path(h.as_str(), rest.as_str());
        }
    }
    if str_eq(raw, "~") {
        if let Some(h) = home {
            return h;
        }
    }
    String::from_str(raw)
}

/// The sort mode named by a configuration string; unknown names mean
/// "by modification date".
pub open spec fn sort_mode_named(name: Seq<char>) -> SortMode {
    if name == "created"@ {
        SortMode::ByCreated
    } else if name == "title"@ {
        SortMode::ByTitle
    } else {
        SortMode::ByModified
    }
}

impl Config {
    /// The notes directory, with `~` expanded to the user's home directory.
    /// A directory that does not start with `~` is returned as written.
    pub fn resolve_notes_dir(&self) -> (r: String)
        ensures
            exists|h: Option<Seq<char>>| r@ == expand_home_spec(self.general.notes_dir@, h),
            (self.general.notes_dir@.len() == 0 || self.general.notes_dir@[0] != '~')
                ==> r@ == self.general.notes_dir@,
    {
        let home = home_dir();
        proof {
            reveal_strlit("~/");
            reveal_strlit("~");
            let raw = self.general.notes_dir@;
            if raw.len() >= 2 && raw[0] != '~' {
                assert(raw.take(2)[0] != "~/"@[0]);
            }
        }
        expand_home(self.general.notes_dir.as_str(), home)
    }

    /// The sort mode that `sort.default_mode` names.
    pub fn resolve_sort_mode(&self) -> (r: SortMode)
        ensures
            r == sort_mode_named(self.sort.default_mode@),
    {
        if str_eq(self.sort.default_mode.as_str(), "created") {
            SortMode::ByCreated
        } else if str_eq(self.sort.default_mode.as_str(), "title") {
            SortMode::ByTitle
        } else {
            SortMode::ByModified
        }
    }
}

} // verus!
