use deez_notes::mouse::{map_mouse_event, MouseAction, MouseEvent, MouseEventKind, Rect};

fn ev(kind: MouseEventKind, col: u16, row: u16) -> MouseEvent {
    MouseEvent { kind, column: col, row }
}

// side: x=0,w=20,y=1,h=10 (content rows 2..=9); main: x=20,w=30,y=1,h=10
fn side() -> Rect {
    Rect { x: 0, y: 1, width: 20, height: 10 }
}

fn main_area() -> Rect {
    Rect { x: 20, y: 1, width: 30, height: 10 }
}
// side: x=0,w=20,y=1,h=10 (content rows 2..=9); main: x=20,w=30,y=1,h=10



#[test]
fn wheel_over_preview_scrolls_preview() {
    assert_eq!(
        map_mouse_event(ev(MouseEventKind::ScrollDown, 25, 5), side(), main_area(), 0),
        MouseAction::ScrollPreviewDown
    );
    assert_eq!(
        map_mouse_event(ev(MouseEventKind::ScrollUp, 25, 5), side(), main_area(), 0),
        MouseAction::ScrollPreviewUp
    );
}

#[test]
fn wheel_over_side_panel_navigates() {
    assert_eq!(
        map_mouse_event(ev(MouseEventKind::ScrollDown, 5, 5), side(), main_area(), 0),
        MouseAction::NavigateDown
    );
    assert_eq!(
        map_mouse_event(ev(MouseEventKind::ScrollUp, 5, 5), side(), main_area(), 0),
        MouseAction::NavigateUp
    );
}

#[test]
fn click_maps_row_to_display_index_with_offset() {
    // First content row is y+1 = 2 -> list row 0 -> offset + 0.
    assert_eq!(
        map_mouse_event(ev(MouseEventKind::LeftDown, 3, 2), side(), main_area(), 0),
        MouseAction::SelectDisplayIndex(0)
    );
    // Row 4 -> list row 2; offset 5 -> index 7.
    assert_eq!(
        map_mouse_event(ev(MouseEventKind::LeftDown, 3, 4), side(), main_area(), 5),
        MouseAction::SelectDisplayIndex(7)
    );
}

#[test]
fn click_on_border_rows_is_ignored() {
    // Top border row (y=1) and bottom border row (y+h-1=10).
    assert_eq!(
        map_mouse_event(ev(MouseEventKind::LeftDown, 3, 1), side(), main_area(), 0),
        MouseAction::Nothing
    );
    assert_eq!(
        map_mouse_event(ev(MouseEventKind::LeftDown, 3, 10), side(), main_area(), 0),
        MouseAction::Nothing
    );
}

#[test]
fn events_outside_panels_do_nothing() {
    assert_eq!(
        map_mouse_event(ev(MouseEventKind::ScrollDown, 5, 0), side(), main_area(), 0),
        MouseAction::Nothing
    );
}
