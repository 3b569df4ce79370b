//! Colour themes: semantic colour roles, the built-in themes, custom
//! themes from the configuration, and colour-name parsing.
use vstd::prelude::*;
use vstd::string::StringSliceAdditionalSpecFns;
use crate::settings::CustomThemeConfig;
use crate::text::str_eq;

verus! {

/// A terminal colour.
#[derive(Debug, Clone, Copy, PartialEq, Eq, Structural)]
pub enum Color {
    Reset,
    Black,
    Red,
    Green,
    Yellow,
    Blue,
    Magenta,
    Cyan,
    DarkGray,
    White,
    Rgb(u8, u8, u8),
}

/// A theme: a colour for each semantic role and a cycle of tag colours.
pub struct Theme {
    pub name: String,
    pub fg_primary: Color,
    pub fg_secondary: Color,
    pub accent: Color,
    pub highlight: Color,
    pub success: Color,
    pub error: Color,
    pub bg_main: Color,
    pub bg_bar: Color,
    pub bg_selection: Color,
    pub fg_selection: Color,
    pub tag_colors: Vec<Color>,
}

/// The plain-data view of a theme.
pub struct ThemeView {
    pub name: Seq<char>,
    pub fg_primary: Color,
    pub fg_secondary: Color,
    pub accent: Color,
    pub highlight: Color,
    pub success: Color,
    pub error: Color,
    pub bg_main: Color,
    pub bg_bar: Color,
    pub bg_selection: Color,
    pub fg_selection: Color,
    pub tag_colors: Seq<Color>,
}

impl View for Theme {
    type V = ThemeView;

    open spec fn view(&self) -> ThemeView {
        ThemeView {
            name: self.name@,
            fg_primary: self.fg_primary,
            fg_secondary: self.fg_secondary,
            accent: self.accent,
            highlight: self.highlight,
            success: self.success,
            error: self.error,
            bg_main: self.bg_main,
            bg_bar: self.bg_bar,
            bg_selection: self.bg_selection,
            fg_selection: self.fg_selection,
            tag_colors: self.tag_colors@,
        }
    }
}
/// The Catppuccin theme.
pub open spec fn catppuccin_view() -> ThemeView {
    ThemeView {
        name: "Catppuccin"@,
        fg_primary: Color::Rgb(205, 214, 244),
        fg_secondary: Color::Rgb(108, 112, 134),
        accent: Color::Rgb(137, 180, 250),
        highlight: Color::Rgb(249, 226, 175),
        success: Color::Rgb(166, 227, 161),
        error: Color::Rgb(243, 139, 168),
        bg_main: Color::Rgb(30, 30, 46),
        bg_bar: Color::Rgb(49, 50, 68),
        bg_selection: Color::Rgb(137, 180, 250),
        fg_selection: Color::Rgb(30, 30, 46),
        tag_colors: seq![
            Color::Rgb(137, 180, 250),
            Color::Rgb(203, 166, 247),
            Color::Rgb(249, 226, 175),
            Color::Rgb(166, 227, 161),
            Color::Rgb(243, 139, 168),
            Color::Rgb(116, 199, 236),
        ],
    }
}

/// The Monokai theme.
pub open spec fn monokai_view() -> ThemeView {
    ThemeView {
        name: "Monokai"@,
        fg_primary: Color::Rgb(248, 248, 242),
        fg_secondary: Color::Rgb(117, 113, 94),
        accent: Color::Rgb(102, 217, 239),
        highlight: Color::Rgb(230, 219, 116),
        success: Color::Rgb(166, 226, 46),
        error: Color::Rgb(249, 38, 114),
        bg_main: Color::Rgb(39, 40, 34),
        bg_bar: Color::Rgb(62, 61, 50),
        bg_selection: Color::Rgb(102, 217, 239),
        fg_selection: Color::Rgb(39, 40, 34),
        tag_colors: seq![
            Color::Rgb(102, 217, 239),
            Color::Rgb(174, 129, 255),
            Color::Rgb(230, 219, 116),
            Color::Rgb(166, 226, 46),
            Color::Rgb(249, 38, 114),
            Color::Rgb(253, 151, 31),
        ],
    }
}

/// The Nord theme.
pub open spec fn nord_view() -> ThemeView {
    ThemeView {
        name: "Nord"@,
        fg_primary: Color::Rgb(236, 239, 244),
        fg_secondary: Color::Rgb(76, 86, 106),
        accent: Color::Rgb(136, 192, 208),
        highlight: Color::Rgb(235, 203, 139),
        success: Color::Rgb(163, 190, 140),
        error: Color::Rgb(191, 97, 106),
        bg_main: Color::Rgb(46, 52, 64),
        bg_bar: Color::Rgb(59, 66, 82),
        bg_selection: Color::Rgb(136, 192, 208),
        fg_selection: Color::Rgb(46, 52, 64),
        tag_colors: seq![
            Color::Rgb(136, 192, 208),
            Color::Rgb(180, 142, 173),
            Color::Rgb(235, 203, 139),
            Color::Rgb(163, 190, 140),
            Color::Rgb(191, 97, 106),
            Color::Rgb(129, 161, 193),
        ],
    }
}

/// The Gruvbox theme.
pub open spec fn gruvbox_view() -> ThemeView {
    ThemeView {
        name: "Gruvbox"@,
        fg_primary: Color::Rgb(235, 219, 178),
        fg_secondary: Color::Rgb(146, 131, 116),
        accent: Color::Rgb(131, 165, 152),
        highlight: Color::Rgb(250, 189, 47),
        success: Color::Rgb(184, 187, 38),
        error: Color::Rgb(251, 73, 52),
        bg_main: Color::Rgb(40, 40, 40),
        bg_bar: Color::Rgb(60, 56, 54),
        bg_selection: Color::Rgb(131, 165, 152),
        fg_selection: Color::Rgb(40, 40, 40),
        tag_colors: seq![
            Color::Rgb(131, 165, 152),
            Color::Rgb(211, 134, 155),
            Color::Rgb(250, 189, 47),
            Color::Rgb(184, 187, 38),
            Color::Rgb(251, 73, 52),
            Color::Rgb(69, 133, 136),
        ],
    }
}

/// The Darcula theme.
pub open spec fn darcula_view() -> ThemeView {
    ThemeView {
        name: "Darcula"@,
        fg_primary: Color::Rgb(169, 183, 198),
        fg_secondary: Color::Rgb(96, 99, 102),
        accent: Color::Rgb(104, 151, 187),
        highlight: Color::Rgb(255, 198, 109),
        success: Color::Rgb(106, 135, 89),
        error: Color::Rgb(255, 107, 104),
        bg_main: Color::Rgb(43, 43, 43),
        bg_bar: Color::Rgb(60, 63, 65),
        bg_selection: Color::Rgb(33, 66, 131),
        fg_selection: Color::Rgb(169, 183, 198),
        tag_colors: seq![
            Color::Rgb(104, 151, 187),
            Color::Rgb(152, 118, 170),
            Color::Rgb(255, 198, 109),
            Color::Rgb(106, 135, 89),
            Color::Rgb(255, 107, 104),
            Color::Rgb(204, 120, 50),
        ],
    }
}

impl Theme {
    /// The built-in Catppuccin theme.
    pub fn catppuccin() -> (r: Theme)
        ensures
            r@ == catppuccin_view(),
    {
        let mut tag_colors: Vec<Color> = Vec::new();
        tag_colors.push(Color::Rgb(137, 180, 250));
        tag_colors.push(Color::Rgb(203, 166, 247));
        tag_colors.push(Color::Rgb(249, 226, 175));
        tag_colors.push(Color::Rgb(166, 227, 161));
        tag_colors.push(Color::Rgb(243, 139, 168));
        tag_colors.push(Color::Rgb(116, 199, 236));
        let r = Theme {
            name: String::from_str("Catppuccin"),
            fg_primary: Color::Rgb(205, 214, 244),
            fg_secondary: Color::Rgb(108, 112, 134),
            accent: Color::Rgb(137, 180, 250),
            highlight: Color::Rgb(249, 226, 175),
            success: Color::Rgb(166, 227, 161),
            error: Color::Rgb(243, 139, 168),
            bg_main: Color::Rgb(30, 30, 46),
            bg_bar: Color::Rgb(49, 50, 68),
            bg_selection: Color::Rgb(137, 180, 250),
            fg_selection: Color::Rgb(30, 30, 46),
            tag_colors,
        };
        assert(r@.tag_colors =~= catppuccin_view().tag_colors);
        r
    }

    /// The built-in Monokai theme.
    pub fn monokai() -> (r: Theme)
        ensures
            r@ == monokai_view(),
    {
        let mut tag_colors: Vec<Color> = Vec::new();
        tag_colors.push(Color::Rgb(102, 217, 239));
        tag_colors.push(Color::Rgb(174, 129, 255));
        tag_colors.push(Color::Rgb(230, 219, 116));
        tag_colors.push(Color::Rgb(166, 226, 46));
        tag_colors.push(Color::Rgb(249, 38, 114));
        tag_colors.push(Color::Rgb(253, 151, 31));
        let r = Theme {
            name: String::from_str("Monokai"),
            fg_primary: Color::Rgb(248, 248, 242),
            fg_secondary: Color::Rgb(117, 113, 94),
            accent: Color::Rgb(102, 217, 239),
            highlight: Color::Rgb(230, 219, 116),
            success: Color::Rgb(166, 226, 46),
            error: Color::Rgb(249, 38, 114),
            bg_main: Color::Rgb(39, 40, 34),
            bg_bar: Color::Rgb(62, 61, 50),
            bg_selection: Color::Rgb(102, 217, 239),
            fg_selection: Color::Rgb(39, 40, 34),
            tag_colors,
        };
        assert(r@.tag_colors =~= monokai_view().tag_colors);
        r
    }

    /// The built-in Nord theme.
    pub fn nord() -> (r: Theme)
        ensures
            r@ == nord_view(),
    {
        let mut tag_colors: Vec<Color> = Vec::new();
        tag_colors.push(Color::Rgb(136, 192, 208));
        tag_colors.push(Color::Rgb(180, 142, 173));
        tag_colors.push(Color::Rgb(235, 203, 139));
        tag_colors.push(Color::Rgb(163, 190, 140));
        tag_colors.push(Color::Rgb(191, 97, 106));
        tag_colors.push(Color::Rgb(129, 161, 193));
        let r = Theme {
            name: String::from_str("Nord"),
            fg_primary: Color::Rgb(236, 239, 244),
            fg_secondary: Color::Rgb(76, 86, 106),
            accent: Color::Rgb(136, 192, 208),
            highlight: Color::Rgb(235, 203, 139),
            success: Color::Rgb(163, 190, 140),
            error: Color::Rgb(191, 97, 106),
            bg_main: Color::Rgb(46, 52, 64),
            bg_bar: Color::Rgb(59, 66, 82),
            bg_selection: Color::Rgb(136, 192, 208),
            fg_selection: Color::Rgb(46, 52, 64),
            tag_colors,
        };
        assert(r@.tag_colors =~= nord_view().tag_colors);
        r
    }

    /// The built-in Gruvbox theme.
    pub fn gruvbox() -> (r: Theme)
        ensures
            r@ == gruvbox_view(),
    {
        let mut tag_colors: Vec<Color> = Vec::new();
        tag_colors.push(Color::Rgb(131, 165, 152));
        tag_colors.push(Color::Rgb(211, 134, 155));
        tag_colors.push(Color::Rgb(250, 189, 47));
        tag_colors.push(Color::Rgb(184, 187, 38));
        tag_colors.push(Color::Rgb(251, 73, 52));
        tag_colors.push(Color::Rgb(69, 133, 136));
        let r = Theme {
            name: String::from_str("Gruvbox"),
            fg_primary: Color::Rgb(235, 219, 178),
            fg_secondary: Color::Rgb(146, 131, 116),
            accent: Color::Rgb(131, 165, 152),
            highlight: Color::Rgb(250, 189, 47),
            success: Color::Rgb(184, 187, 38),
            error: Color::Rgb(251, 73, 52),
            bg_main: Color::Rgb(40, 40, 40),
            bg_bar: Color::Rgb(60, 56, 54),
            bg_selection: Color::Rgb(131, 165, 152),
            fg_selection: Color::Rgb(40, 40, 40),
            tag_colors,
        };
        assert(r@.tag_colors =~= gruvbox_view().tag_colors);
        r
    }

    /// The built-in Darcula theme.
    pub fn darcula() -> (r: Theme)
        ensures
            r@ == darcula_view(),
    {
        let mut tag_colors: Vec<Color> = Vec::new();
        tag_colors.push(Color::Rgb(104, 151, 187));
        tag_colors.push(Color::Rgb(152, 118, 170));
        tag_colors.push(Color::Rgb(255, 198, 109));
        tag_colors.push(Color::Rgb(106, 135, 89));
        tag_colors.push(Color::Rgb(255, 107, 104));
        tag_colors.push(Color::Rgb(204, 120, 50));
        let r = Theme {
            name: String::from_str("Darcula"),
            fg_primary: Color::Rgb(169, 183, 198),
            fg_secondary: Color::Rgb(96, 99, 102),
            accent: Color::Rgb(104, 151, 187),
            highlight: Color::Rgb(255, 198, 109),
            success: Color::Rgb(106, 135, 89),
            error: Color::Rgb(255, 107, 104),
            bg_main: Color::Rgb(43, 43, 43),
            bg_bar: Color::Rgb(60, 63, 65),
            bg_selection: Color::Rgb(33, 66, 131),
            fg_selection: Color::Rgb(169, 183, 198),
            tag_colors,
        };
        assert(r@.tag_colors =~= darcula_view().tag_colors);
        r
    }

}

/// The value of an ASCII hexadecimal digit.
pub open spec fn hex_digit(b: u8) -> Option<nat> {
    if 0x30 <= b <= 0x39 {
        Some((b - 0x30) as nat)
    } else if 0x61 <= b <= 0x66 {
        Some((b - 0x61 + 10) as nat)
    } else if 0x41 <= b <= 0x46 {
        Some((b - 0x41 + 10) as nat)
    } else {
        None
    }
}

/// `u8::from_str_radix(s, 16)` on the two-byte text `[a, b]`: an optional
/// `+` followed by hexadecimal digits.
pub open spec fn radix16_pair(a: u8, b: u8) -> Option<u8> {
    if a == 0x2b {
        match hex_digit(b) {
            Some(d) => Some(d as u8),
            None => None,
        }
    } else {
        match (hex_digit(a), hex_digit(b)) {
            (Some(x), Some(y)) => Some((16 * x + y) as u8),
            _ => None,
        }
    }
}

/// The colour a `#rrggbb` text denotes, given its UTF-8 bytes.
pub open spec fn hex_color(b: Seq<u8>) -> Option<Color> {
    if b.len() == 7 && b[0] == 0x23 {
        match (radix16_pair(b[1], b[2]), radix16_pair(b[3], b[4]), radix16_pair(b[5], b[6])) {
            (Some(r), Some(g), Some(bl)) => Some(Color::Rgb(r, g, bl)),
            _ => None,
        }
    } else {
        None
    }
}

/// The colour a colour name denotes; unknown names are white.
pub open spec fn named_color(name: Seq<char>) -> Color {
    if name == "cyan"@ {
        Color::Cyan
    } else if name == "magenta"@ {
        Color::Magenta
    } else if name == "yellow"@ {
        Color::Yellow
    } else if name == "green"@ {
        Color::Green
    } else if name == "red"@ {
        Color::Red
    } else if name == "blue"@ {
        Color::Blue
    } else if name == "white"@ {
        Color::White
    } else if name == "black"@ {
        Color::Black
    } else if name == "reset"@ {
        Color::Reset
    } else {
        Color::White
    }
}

/// The colour `parse_color` gives for a text: a valid `#rrggbb`, else a
/// named colour, else white.
pub open spec fn color_of(name: Seq<char>) -> Color {
    match hex_color(vstd::utf8::encode_utf8(name)) {
        Some(c) => c,
        None => named_color(name),
    }
}

fn hex_digit_exec(b: u8) -> (r: Option<u8>)
    ensures
        match hex_digit(b) {
            Some(d) => r == Some(d as u8),
            None => r is None,
        },
{
    if 0x30 <= b && b <= 0x39 {
        Some(b - 0x30)
    } else if 0x61 <= b && b <= 0x66 {
        Some(b - 0x61 + 10)
    } else if 0x41 <= b && b <= 0x46 {
        Some(b - 0x41 + 10)
    } else {
        None
    }
}

fn radix16_pair_exec(a: u8, b: u8) -> (r: Option<u8>)
    ensures
        r == radix16_pair(a, b),
{
    if a == 0x2b {
        hex_digit_exec(b)
    } else {
        match (hex_digit_exec(a), hex_digit_exec(b)) {
            (Some(x), Some(y)) => Some(16 * x + y),
            _ => None,
        }
    }
}

/// Parses a colour: `#rrggbb`, or one of the names cyan, magenta,
/// yellow, green, red, blue, white, black, reset; anything else is white.
pub fn parse_color(name: &str) -> (r: Color)
    ensures
        r == color_of(name@),
{
    let b = name.as_bytes();
    assert(b@ == vstd::utf8::encode_utf8(name@));
    if b.len() == 7 && b[0] == 0x23 {
        let r = radix16_pair_exec(b[1], b[2]);
        let g = radix16_pair_exec(b[3], b[4]);
        let bl = radix16_pair_exec(b[5], b[6]);
        if let (Some(r), Some(g), Some(bl)) = (r, g, bl) {
            return Color::Rgb(r, g, bl);
        }
    }
    if str_eq(name, "cyan") {
        Color::Cyan
    } else if str_eq(name, "magenta") {
        Color::Magenta
    } else if str_eq(name, "yellow") {
        Color::Yellow
    } else if str_eq(name, "green") {
        Color::Green
    } else if str_eq(name, "red") {
        Color::Red
    } else if str_eq(name, "blue") {
        Color::Blue
    } else if str_eq(name, "white") {
        Color::White
    } else if str_eq(name, "black") {
        Color::Black
    } else if str_eq(name, "reset") {
        Color::Reset
    } else {
        Color::White
    }
}

/// Parses every colour in a list.
pub fn parse_colors(names: &[String]) -> (r: Vec<Color>)
    ensures
        r@ == names@.map_values(|s: String| color_of(s@)),
{
    let mut r: Vec<Color> = Vec::new();
    let mut i: usize = 0;
    while i < names.len()
        invariant
            i <= names@.len(),
            r@ == names@.take(i as int).map_values(|s: String| color_of(s@)),
        decreases names@.len() - i,
    {
        let c = parse_color(names[i].as_str());
        r.push(c);
        assert(names@.take(i + 1).map_values(|s: String| color_of(s@)) =~= names@.take(i as int).map_values(|s: String| color_of(s@)).push(c));
        i = i + 1;
    }
    assert(names@.take(names@.len() as int) =~= names@);
    r
}

/// The default tag colours of the terminal theme.
pub open spec fn default_terminal_tag_colors() -> Seq<Color> {
    seq![Color::Cyan, Color::Magenta, Color::Yellow, Color::Green, Color::Red, Color::Blue]
}

/// The terminal theme, whose tag colours come from the configuration.
pub open spec fn terminal_view(config_tag_colors: Seq<String>) -> ThemeView {
    ThemeView {
        name: "Terminal"@,
        fg_primary: Color::Reset,
        fg_secondary: Color::DarkGray,
        accent: Color::Cyan,
        highlight: Color::Yellow,
        success: Color::Green,
        error: Color::Red,
        bg_main: Color::Reset,
        bg_bar: Color::Reset,
        bg_selection: Color::Cyan,
        fg_selection: Color::Black,
        tag_colors: if config_tag_colors.len() == 0 {
            default_terminal_tag_colors()
        } else {
            config_tag_colors.map_values(|s: String| color_of(s@))
        },
    }
}

/// The theme a custom theme definition describes.
pub open spec fn custom_view(cfg: CustomThemeConfig) -> ThemeView {
    ThemeView {
        name: cfg.name@,
        fg_primary: color_of(cfg.fg_primary@),
        fg_secondary: color_of(cfg.fg_secondary@),
        accent: color_of(cfg.accent@),
        highlight: color_of(cfg.highlight@),
        success: color_of(cfg.success@),
        error: color_of(cfg.error@),
        bg_main: color_of(cfg.bg_main@),
        bg_bar: color_of(cfg.bg_bar@),
        bg_selection: color_of(cfg.bg_selection@),
        fg_selection: color_of(cfg.fg_selection@),
        tag_colors: cfg.tag_colors@.map_values(|s: String| color_of(s@)),
    }
}

/// The six built-in themes, in menu order.
pub open spec fn builtin_views(config_tag_colors: Seq<String>) -> Seq<ThemeView> {
    seq![
        terminal_view(config_tag_colors),
        catppuccin_view(),
        monokai_view(),
        nord_view(),
        gruvbox_view(),
        darcula_view(),
    ]
}

impl Theme {
    /// The terminal theme: ANSI colours that follow the terminal palette,
    /// with tag colours from the configuration (or six defaults).
    pub fn terminal(config_tag_colors: &[String]) -> (r: Theme)
        ensures
            r@ == terminal_view(config_tag_colors@),
    {
        let tag_colors = if config_tag_colors.len() == 0 {
            let mut v: Vec<Color> = Vec::new();
            v.push(Color::Cyan);
            v.push(Color::Magenta);
            v.push(Color::Yellow);
            v.push(Color::Green);
            v.push(Color::Red);
            v.push(Color::Blue);
            assert(v@ =~= default_terminal_tag_colors());
            v
        } else {
            parse_colors(config_tag_colors)
        };
        Theme {
            name: String::from_str("Terminal"),
            fg_primary: Color::Reset,
            fg_secondary: Color::DarkGray,
            accent: Color::Cyan,
            highlight: Color::Yellow,
            success: Color::Green,
            error: Color::Red,
            bg_main: Color::Reset,
            bg_bar: Color::Reset,
            bg_selection: Color::Cyan,
            fg_selection: Color::Black,
            tag_colors,
        }
    }

    /// Builds a custom theme from its configuration.
    pub fn from_config(cfg: &CustomThemeConfig) -> (r: Theme)
        ensures
            r@ == custom_view(*cfg),
    {
        Theme {
            name: cfg.name.clone(),
            fg_primary: parse_color(cfg.fg_primary.as_str()),
            fg_secondary: parse_color(cfg.fg_secondary.as_str()),
            accent: parse_color(cfg.accent.as_str()),
            highlight: parse_color(cfg.highlight.as_str()),
            success: parse_color(cfg.success.as_str()),
            error: parse_color(cfg.error.as_str()),
            bg_main: parse_color(cfg.bg_main.as_str()),
            bg_bar: parse_color(cfg.bg_bar.as_str()),
            bg_selection: parse_color(cfg.bg_selection.as_str()),
            fg_selection: parse_color(cfg.fg_selection.as_str()),
            tag_colors: parse_colors(cfg.tag_colors.as_slice()),
        }
    }

    /// All six built-in themes; the terminal theme takes the configured tag colours.
    pub fn builtin_themes(config_tag_colors: &[String]) -> (r: Vec<Theme>)
        ensures
            r@.map_values(|t: Theme| t@) == builtin_views(config_tag_colors@),
    {
        let mut v: Vec<Theme> = Vec::new();
        v.push(Theme::terminal(config_tag_colors));
        v.push(Theme::catppuccin());
        v.push(Theme::monokai());
        v.push(Theme::nord());
        v.push(Theme::gruvbox());
        v.push(Theme::darcula());
        assert(v@.map_values(|t: Theme| t@) =~= builtin_views(config_tag_colors@));
        v
    }
}

} // verus!
