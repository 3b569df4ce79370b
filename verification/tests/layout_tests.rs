use deez_notes::mouse::{centered_rect, Rect};
use deez_notes::ui::compute_layout;

fn rect(x: u16, y: u16, width: u16, height: u16) -> Rect {
    Rect { x, y, width, height }
}

#[test]
fn layout_basic_proportions() {
    let area = rect(0, 0, 80, 24);
    let layout = compute_layout(area, 30);

    // search_bar: 1 row at top
    assert_eq!(layout.search_bar.height, 1);
    assert_eq!(layout.search_bar.y, 0);
    assert_eq!(layout.search_bar.width, 80);

    // status_bar: 1 row at bottom
    assert_eq!(layout.status_bar.height, 1);
    assert_eq!(layout.status_bar.y, 23);
    assert_eq!(layout.status_bar.width, 80);

    // Content area fills the remaining 22 rows
    let content_height = 24 - 2; // minus search_bar and status_bar
    assert_eq!(layout.side_panel.height, content_height);
    assert_eq!(layout.main_panel.height, content_height);

    // Side panel width ~ 30% of 80 = 24
    let expected_side = (80 * 30) / 100;
    assert_eq!(layout.side_panel.width, expected_side);

    // main_panel takes the rest
    assert_eq!(
        layout.side_panel.width + layout.main_panel.width,
        80
    );
}

#[test]
fn layout_clamps_percentage() {
    let area = rect(0, 0, 100, 30);

    // 5% should be clamped to 10%
    let layout_low = compute_layout(area, 5);
    let expected_10 = (100 * 10) / 100;
    assert_eq!(layout_low.side_panel.width, expected_10);

    // 95% should be clamped to 80%
    let layout_high = compute_layout(area, 95);
    let expected_80 = (100 * 80) / 100;
    assert_eq!(layout_high.side_panel.width, expected_80);
}

#[test]
fn layout_small_terminal() {
    let area = rect(0, 0, 20, 5);
    let layout = compute_layout(area, 30);

    // Should not panic
    assert!(layout.search_bar.width <= 20);
    assert!(layout.status_bar.width <= 20);
    assert!(layout.side_panel.width + layout.main_panel.width <= 20);

    // All rects should have non-negative dimensions (Rect uses u16, so always >= 0)
    // and should fit within the original area
    assert!(layout.search_bar.x + layout.search_bar.width <= area.width);
    assert!(layout.status_bar.x + layout.status_bar.width <= area.width);
    assert!(layout.side_panel.y + layout.side_panel.height <= area.y + area.height);
    assert!(layout.main_panel.y + layout.main_panel.height <= area.y + area.height);
}

#[test]
fn layout_full_width() {
    let area = rect(0, 0, 100, 50);
    let layout = compute_layout(area, 30);

    // No horizontal overlap between side and main panels
    assert_eq!(layout.main_panel.x, layout.side_panel.x + layout.side_panel.width);

    // No vertical overlap: search_bar, content area, status_bar are stacked
    assert!(layout.search_bar.y + layout.search_bar.height <= layout.side_panel.y);
    assert!(layout.side_panel.y + layout.side_panel.height <= layout.status_bar.y);

    // Full width coverage
    assert_eq!(layout.search_bar.width, 100);
    assert_eq!(layout.status_bar.width, 100);
    assert_eq!(layout.side_panel.width + layout.main_panel.width, 100);
}

#[test]
fn centered_rect_basic() {
    let area = rect(0, 0, 100, 50);
    let r = centered_rect(40, 10, area);
    assert_eq!(r.x, 30);
    assert_eq!(r.y, 20);
    assert_eq!(r.width, 40);
    assert_eq!(r.height, 10);
}

#[test]
fn centered_rect_clamped() {
    let area = rect(0, 0, 20, 10);
    let r = centered_rect(40, 20, area);
    assert_eq!(r.width, 20);
    assert_eq!(r.height, 10);
    assert_eq!(r.x, 0);
    assert_eq!(r.y, 0);
}
