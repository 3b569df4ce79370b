//! Resolving mouse events against the panel layout.
use vstd::prelude::*;

verus! {

/// A rectangle of terminal cells.
#[derive(Debug, Clone, Copy, PartialEq, Eq, Structural)]
pub struct Rect {
    pub x: u16,
    pub y: u16,
    pub width: u16,
    pub height: u16,
}

/// The kinds of mouse event the application reacts to.
#[derive(Debug, Clone, Copy, PartialEq, Eq, Structural)]
pub enum MouseEventKind {
    ScrollDown,
    ScrollUp,
    /// Left button pressed.
    LeftDown,
    /// Anything else.
    Other,
}

/// A mouse event at a cell.
#[derive(Debug, Clone, Copy, PartialEq, Eq, Structural)]
pub struct MouseEvent {
    pub kind: MouseEventKind,
    pub column: u16,
    pub row: u16,
}

/// What a mouse event means once resolved against the layout.
#[derive(Debug, Clone, Copy, PartialEq, Eq, Structural)]
pub enum MouseAction {
    /// Scroll the preview up one line.
    ScrollPreviewUp,
    /// Scroll the preview down one line.
    ScrollPreviewDown,
    /// Move the side-panel selection up.
    NavigateUp,
    /// Move the side-panel selection down.
    NavigateDown,
    /// Select the side-panel item at this display index.
    SelectDisplayIndex(usize),
    /// Nothing to do.
    Nothing,
}

/// `a + b`, capped at the largest `u16`.
pub open spec fn sat_add(a: u16, b: u16) -> int {
    if a + b > u16::MAX { u16::MAX as int } else { a + b }
}

/// `a - b`, floored at zero.
pub open spec fn sat_sub(a: u16, b: u16) -> int {
    if a >= b { a - b } else { 0 }
}

/// The cell `(col, row)` lies inside `rect` (with saturating edges).
pub open spec fn rect_contains(rect: Rect, col: u16, row: u16) -> bool {
    col >= rect.x && col < sat_add(rect.x, rect.width) && row >= rect.y && row < sat_add(rect.y, rect.height)
}

/// Whether the cell `(col, row)` lies inside `rect`.
pub fn contains(rect: Rect, col: u16, row: u16) -> (r: bool)
    ensures
        r == rect_contains(rect, col, row),
{
    col >= rect.x && col < rect.x.saturating_add(rect.width) && row >= rect.y && row < rect.y.saturating_add(rect.height)
}

/// What a mouse event means: wheel scrolling scrolls the preview or moves
/// the selection, depending on the panel under the pointer; a left click on
/// a content row of the side panel selects the item shown there.
pub open spec fn mouse_action(event: MouseEvent, side_panel: Rect, main_panel: Rect, list_offset: usize) -> MouseAction {
    let col = event.column;
    let row = event.row;
    match event.kind {
        MouseEventKind::ScrollDown => if rect_contains(main_panel, col, row) {
            MouseAction::ScrollPreviewDown
        } else if rect_contains(side_panel, col, row) {
            MouseAction::NavigateDown
        } else {
            MouseAction::Nothing
        },
        MouseEventKind::ScrollUp => if rect_contains(main_panel, col, row) {
            MouseAction::ScrollPreviewUp
        } else if rect_contains(side_panel, col, row) {
            MouseAction::NavigateUp
        } else {
            MouseAction::Nothing
        },
        MouseEventKind::LeftDown => {
            let inner_top = sat_add(side_panel.y, 1);
            let inner_bottom = sat_add(side_panel.y, sat_sub(side_panel.height, 1) as u16);
            if rect_contains(side_panel, col, row) && row >= inner_top && row < inner_bottom {
                MouseAction::SelectDisplayIndex((list_offset + (row - inner_top)) as usize)
            } else {
                MouseAction::Nothing
            }
        },
        MouseEventKind::Other => MouseAction::Nothing,
    }
}

/// Maps a mouse event to an action given the side- and main-panel areas
/// and the index of the first item visible in the side panel.
pub fn map_mouse_event(event: MouseEvent, side_panel: Rect, main_panel: Rect, list_offset: usize) -> (r: MouseAction)
    requires
        list_offset + u16::MAX <= usize::MAX,
    ensures
        r == mouse_action(event, side_panel, main_panel, list_offset),
{
    let col = event.column;
    let row = event.row;
    match event.kind {
        MouseEventKind::ScrollDown => {
            if contains(main_panel, col, row) {
                MouseAction::ScrollPreviewDown
            } else if contains(side_panel, col, row) {
                MouseAction::NavigateDown
            } else {
                MouseAction::Nothing
            }
        },
        MouseEventKind::ScrollUp => {
            if contains(main_panel, col, row) {
                MouseAction::ScrollPreviewUp
            } else if contains(side_panel, col, row) {
                MouseAction::NavigateUp
            } else {
                MouseAction::Nothing
            }
        },
        MouseEventKind::LeftDown => {
            let inner_top = side_panel.y.saturating_add(1);
            let inner_bottom = side_panel.y.saturating_add(side_panel.height.saturating_sub(1));
            if contains(side_panel, col, row) && row >= inner_top && row < inner_bottom {
                let list_row = (row - inner_top) as usize;
                MouseAction::SelectDisplayIndex(list_offset + list_row)
            } else {
                MouseAction::Nothing
            }
        },
        MouseEventKind::Other => MouseAction::Nothing,
    }
}

/// A popup of the given size centred in `area`, shrunk to fit it.
pub open spec fn centered_rect_spec(width: u16, height: u16, area: Rect) -> Rect {
    let w = if width <= area.width { width } else { area.width };
    let h = if height <= area.height { height } else { area.height };
    Rect {
        x: (area.x + (area.width - w) / 2) as u16,
        y: (area.y + (area.height - h) / 2) as u16,
        width: w,
        height: h,
    }
}

/// Centres a `width` x `height` popup in `area`, clamped to the area.
pub fn centered_rect(width: u16, height: u16, area: Rect) -> (r: Rect)
    requires
        area.x + area.width <= u16::MAX,
        area.y + area.height <= u16::MAX,
    ensures
        r == centered_rect_spec(width, height, area),
{
    let w = if width < area.width { width } else { area.width };
    let h = if height < area.height { height } else { area.height };
    let x = area.x + (area.width.saturating_sub(w)) / 2;
    let y = area.y + (area.height.saturating_sub(h)) / 2;
    Rect { x, y, width: w, height: h }
}

} // verus!
