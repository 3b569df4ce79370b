use deez_notes::settings::CustomThemeConfig;
use deez_notes::theme::{parse_color, Color, Theme};

#[test]
fn terminal_theme_uses_config_tag_colors() {
    let colors = vec!["red".to_string(), "blue".to_string()];
    let theme = Theme::terminal(&colors);
    assert_eq!(theme.tag_colors.len(), 2);
    assert_eq!(theme.tag_colors[0], Color::Red);
    assert_eq!(theme.tag_colors[1], Color::Blue);
}

#[test]
fn terminal_theme_empty_config_uses_defaults() {
    let theme = Theme::terminal(&[]);
    assert_eq!(theme.tag_colors.len(), 6);
}

#[test]
fn terminal_theme_uses_ansi_colors() {
    let theme = Theme::terminal(&[]);
    assert_eq!(theme.fg_primary, Color::Reset);
    assert_eq!(theme.accent, Color::Cyan);
    assert_eq!(theme.highlight, Color::Yellow);
}

#[test]
fn builtin_themes_returns_six() {
    let themes = Theme::builtin_themes(&[]);
    assert_eq!(themes.len(), 6);
    assert_eq!(themes[0].name, "Terminal");
    assert_eq!(themes[5].name, "Darcula");
}

#[test]
fn all_builtins_have_tag_colors() {
    for theme in Theme::builtin_themes(&[]) {
        assert!(!theme.tag_colors.is_empty(), "{} has no tag_colors", theme.name);
    }
}

#[test]
fn from_config_builds_custom_theme() {
    let cfg = CustomThemeConfig {
        name: "My Theme".into(),
        fg_primary: "#cdd6f4".into(),
        fg_secondary: "#6c7086".into(),
        accent: "#89b4fa".into(),
        highlight: "#f9e2af".into(),
        success: "#a6e3a1".into(),
        error: "#f38ba8".into(),
        bg_main: "#1e1e2e".into(),
        bg_bar: "#313244".into(),
        bg_selection: "#89b4fa".into(),
        fg_selection: "#1e1e2e".into(),
        tag_colors: vec!["#ff0000".into(), "cyan".into()],
    };
    let theme = Theme::from_config(&cfg);
    assert_eq!(theme.name, "My Theme");
    assert_eq!(theme.accent, Color::Rgb(0x89, 0xb4, 0xfa));
    assert_eq!(theme.tag_colors.len(), 2);
    assert_eq!(theme.tag_colors[0], Color::Rgb(255, 0, 0));
    assert_eq!(theme.tag_colors[1], Color::Cyan);
}

#[test]
fn parse_color_named() {
    assert_eq!(parse_color("cyan"), Color::Cyan);
    assert_eq!(parse_color("magenta"), Color::Magenta);
    assert_eq!(parse_color("yellow"), Color::Yellow);
    assert_eq!(parse_color("green"), Color::Green);
    assert_eq!(parse_color("red"), Color::Red);
    assert_eq!(parse_color("blue"), Color::Blue);
    assert_eq!(parse_color("white"), Color::White);
    assert_eq!(parse_color("black"), Color::Black);
    assert_eq!(parse_color("reset"), Color::Reset);
}

#[test]
fn parse_color_hex() {
    assert_eq!(parse_color("#ff0000"), Color::Rgb(255, 0, 0));
    assert_eq!(parse_color("#00ff00"), Color::Rgb(0, 255, 0));
    assert_eq!(parse_color("#1e1e2e"), Color::Rgb(30, 30, 46));
}

#[test]
fn parse_color_invalid_hex_falls_back() {
    assert_eq!(parse_color("#gg0000"), Color::White);
    assert_eq!(parse_color("#fff"), Color::White);
    assert_eq!(parse_color("#"), Color::White);
}

#[test]
fn parse_color_unknown_defaults_to_white() {
    assert_eq!(parse_color("unknown"), Color::White);
    assert_eq!(parse_color(""), Color::White);
}

#[test]
fn parse_color_non_ascii_hex_falls_back() {
    // A '#' and six bytes that are not six hex digits, some of them inside
    // a multi-byte character: white, like any other malformed hex.
    assert_eq!(parse_color("#a\u{e9}123"), Color::White);
    assert_eq!(parse_color("#\u{e9}\u{e9}\u{e9}"), Color::White);
    assert_eq!(parse_color("#12345\u{e9}"), Color::White);
}

#[test]
fn terminal_theme_takes_malformed_tag_colors() {
    let tags: Vec<String> = vec!["#a\u{e9}123".into(), "red".into()];
    let theme = Theme::terminal(&tags);
    assert_eq!(theme.tag_colors, vec![Color::White, Color::Red]);
}
