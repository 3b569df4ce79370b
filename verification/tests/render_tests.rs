use deez_notes::markdown::Line;
use deez_notes::render::render_markdown;
use deez_notes::theme::Theme;

fn line_text(l: &Line) -> String {
    l.spans.iter().map(|s| s.content.as_str()).collect()
}

fn test_theme() -> Theme {
    Theme::terminal(&[])
}

#[test]
fn empty_input_returns_empty_vec() {
    let result = render_markdown("", 80, &test_theme());
    assert!(result.is_empty());
}

#[test]
fn heading_h1_is_bold_accent() {
    let theme = test_theme();
    let result = render_markdown("# Hello", 80, &theme);
    assert!(!result.is_empty());
    let first = &result[0];
    let span = &first.spans[0];
    let style = span.style;
    assert_eq!(style.fg, Some(theme.accent));
    assert!(style.bold);
}

#[test]
fn heading_h2_is_bold_highlight() {
    let theme = test_theme();
    let result = render_markdown("## World", 80, &theme);
    assert!(!result.is_empty());
    let first = &result[0];
    let span = &first.spans[0];
    let style = span.style;
    assert_eq!(style.fg, Some(theme.highlight));
    assert!(style.bold);
}

#[test]
fn heading_h3_is_bold_success() {
    let theme = test_theme();
    let result = render_markdown("### Section", 80, &theme);
    assert!(!result.is_empty());
    let first = &result[0];
    let span = &first.spans[0];
    let style = span.style;
    assert_eq!(style.fg, Some(theme.success));
    assert!(style.bold);
}

#[test]
fn h1_has_blank_line_after() {
    let result = render_markdown("# Title", 80, &test_theme());
    // Should be: heading line, blank line
    assert!(result.len() >= 2);
    assert!(result[1].spans.is_empty() || line_text(&result[1]).is_empty());
}

#[test]
fn bold_text_has_bold_modifier() {
    let result = render_markdown("some **bold** text", 80, &test_theme());
    assert!(!result.is_empty());
    let line = &result[0];
    // Find the span containing "bold"
    let bold_span = line.spans.iter().find(|s| s.content.contains("bold"));
    assert!(bold_span.is_some());
    assert!(bold_span
        .expect("bold span missing")
        .style
        .bold);
}

#[test]
fn italic_text_has_italic_modifier() {
    let result = render_markdown("some *italic* text", 80, &test_theme());
    assert!(!result.is_empty());
    let line = &result[0];
    let italic_span = line.spans.iter().find(|s| s.content.contains("italic"));
    assert!(italic_span.is_some());
    assert!(italic_span
        .expect("italic span missing")
        .style
        .italic);
}

#[test]
fn inline_code_has_highlight_color() {
    let theme = test_theme();
    let result = render_markdown("use `code` here", 80, &theme);
    assert!(!result.is_empty());
    let line = &result[0];
    let code_span = line.spans.iter().find(|s| s.content.contains("code"));
    assert!(code_span.is_some());
    assert_eq!(
        code_span.expect("code span missing").style.fg,
        Some(theme.highlight)
    );
}

#[test]
fn code_block_lines_are_prefixed() {
    let theme = test_theme();
    let input = "```\nlet x = 1;\n```";
    let result = render_markdown(input, 80, &theme);
    // Find a line that contains the code
    let code_line = result
        .iter()
        .find(|l| l.spans.iter().any(|s| s.content.contains("let x")));
    assert!(code_line.is_some(), "code block line not found");
    let code_line = code_line.expect("code line missing");
    // First span should be the prefix
    assert!(code_line.spans[0].content.contains('\u{2502}'));
    assert_eq!(code_line.spans[0].style.fg, Some(theme.fg_secondary));
    // Second span is the content
    assert_eq!(code_line.spans[1].style.fg, Some(theme.success));
}

#[test]
fn unordered_list_has_bullet() {
    let result = render_markdown("- item one\n- item two", 80, &test_theme());
    let has_bullet = result
        .iter()
        .any(|l| l.spans.iter().any(|s| s.content.contains('\u{2022}')));
    assert!(has_bullet, "bullet character not found in list");
}

#[test]
fn ordered_list_has_numbers() {
    let result = render_markdown("1. first\n2. second", 80, &test_theme());
    let has_number = result
        .iter()
        .any(|l| l.spans.iter().any(|s| s.content.contains("1.")));
    assert!(has_number, "ordered list number not found");
}

#[test]
fn horizontal_rule_spans_width() {
    let result = render_markdown("---", 40, &test_theme());
    let rule_line = result
        .iter()
        .find(|l| l.spans.iter().any(|s| s.content.contains('\u{2500}')));
    assert!(rule_line.is_some(), "horizontal rule not found");
    let rule_line = rule_line.expect("rule missing");
    let rule_text: String = rule_line.spans.iter().map(|s| s.content.to_string()).collect();
    assert_eq!(rule_text.chars().count(), 40);
}

#[test]
fn blockquote_has_prefix_and_italic() {
    let result = render_markdown("> quoted text", 80, &test_theme());
    let quote_line = result.iter().find(|l| {
        l.spans
            .iter()
            .any(|s| s.content.contains("quoted"))
    });
    assert!(quote_line.is_some(), "blockquote line not found");
    let quote_line = quote_line.expect("quote line missing");
    // Should have a prefix span with the vertical bar
    assert!(quote_line.spans[0].content.contains('\u{2502}'));
    // The text span should be italic
    let text_span = quote_line
        .spans
        .iter()
        .find(|s| s.content.contains("quoted"));
    assert!(text_span
        .expect("quoted span missing")
        .style
        .italic);
}

#[test]
fn paragraphs_separated_by_blank_lines() {
    let result = render_markdown("First paragraph.\n\nSecond paragraph.", 80, &test_theme());
    // There should be blank lines separating paragraphs
    let blank_count = result
        .iter()
        .filter(|l| l.spans.is_empty() || line_text(l).is_empty())
        .count();
    assert!(
        blank_count >= 1,
        "expected blank lines between paragraphs, got {}",
        blank_count
    );
}

#[test]
fn nested_formatting_bold_inside_italic_no_crash() {
    let input = "*italic and **bold inside** italic*";
    let result = render_markdown(input, 80, &test_theme());
    // Should not crash; just verify we get output
    assert!(!result.is_empty());
    // The text content should be present somewhere in the spans
    let all_text: String = result
        .iter()
        .flat_map(|l| l.spans.iter().map(|s| s.content.to_string()))
        .collect();
    assert!(all_text.contains("italic"));
    assert!(all_text.contains("bold inside"));
}

#[test]
fn very_long_lines_handled() {
    let long_line = "x".repeat(10000);
    let result = render_markdown(&long_line, 80, &test_theme());
    assert!(!result.is_empty());
    let all_text: String = result
        .iter()
        .flat_map(|l| l.spans.iter().map(|s| s.content.to_string()))
        .collect();
    assert_eq!(all_text.len(), 10000);
}

#[test]
fn empty_heading_no_crash() {
    let result = render_markdown("# ", 80, &test_theme());
    // Should not crash; may produce an empty heading line
    // (pulldown-cmark treats "# " as a heading with empty text)
    let _ = result;
}

#[test]
fn code_block_with_no_language_renders() {
    let theme = test_theme();
    let input = "```\nfn main() {}\n```";
    let result = render_markdown(input, 80, &theme);
    let code_line = result
        .iter()
        .find(|l| l.spans.iter().any(|s| s.content.contains("fn main")));
    assert!(code_line.is_some(), "code block without language should render");
    let code_line = code_line.unwrap();
    // Should still have the prefix
    assert!(code_line.spans[0].content.contains('\u{2502}'));
    // Code text should use success color
    assert_eq!(code_line.spans[1].style.fg, Some(theme.success));
}

#[test]
fn deeply_nested_lists_render() {
    let input = "- Level 1\n  - Level 2\n    - Level 3\n      - Level 4\n        - Level 5";
    let result = render_markdown(input, 80, &test_theme());
    // Should not crash and should produce some output
    assert!(!result.is_empty());
    // At least the top-level items should be present
    let all_text: String = result
        .iter()
        .flat_map(|l| l.spans.iter().map(|s| s.content.to_string()))
        .collect();
    assert!(all_text.contains("Level 1"));
    assert!(all_text.contains("Level 5"));
}

#[test]
fn soft_break_produces_separate_lines() {
    // A single newline in a paragraph produces a SoftBreak event.
    // We want it rendered as a visible line break, not collapsed to a space.
    let input = "line one\nline two\nline three";
    let result = render_markdown(input, 80, &test_theme());

    let line_texts: Vec<String> = result
        .iter()
        .map(|l| {
            l.spans
                .iter()
                .map(|s| s.content.to_string())
                .collect::<String>()
        })
        .filter(|s| !s.is_empty())
        .collect();

    assert!(
        line_texts.len() >= 3,
        "expected at least 3 separate lines, got {}: {:?}",
        line_texts.len(),
        line_texts
    );
    assert!(line_texts.iter().any(|l| l.contains("line one")));
    assert!(line_texts.iter().any(|l| l.contains("line two")));
    assert!(line_texts.iter().any(|l| l.contains("line three")));
}

#[test]
fn tabs_are_preserved_as_indentation() {
    // Tabs should be expanded to non-breaking spaces so they appear
    // as visible indentation instead of being swallowed by the parser.
    let input = "Idées :\n\tUne barre de progrès\n\tAjouter un truc";
    let result = render_markdown(input, 80, &test_theme());

    let all_text: String = result
        .iter()
        .flat_map(|l| l.spans.iter().map(|s| s.content.to_string()))
        .collect();

    let expected_indent = "\u{00a0}".repeat(4);
    assert!(
        all_text.contains(&format!("{}Une barre", expected_indent)),
        "tab indentation not preserved: {:?}",
        all_text
    );
}

#[test]
fn leading_spaces_are_preserved_as_indentation() {
    // Leading spaces should also be preserved so that manually
    // indented content (like "    - item") keeps its visual indent.
    let input = "Idées :\n    - Une barre de progrès\n    - Ajouter un truc";
    let result = render_markdown(input, 80, &test_theme());

    let all_text: String = result
        .iter()
        .flat_map(|l| l.spans.iter().map(|s| s.content.to_string()))
        .collect();

    let expected_indent = "\u{00a0}".repeat(4);
    assert!(
        all_text.contains(&format!("{}- Une barre", expected_indent)),
        "leading space indentation not preserved: {:?}",
        all_text
    );
}
