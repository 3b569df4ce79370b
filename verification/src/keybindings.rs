//! Mapping key presses to semantic actions, per application mode.
use vstd::prelude::*;
use crate::app::{AppMode, KeyAction};

verus! {

/// A key, as the terminal reports it.
#[derive(Debug, Clone, Copy, PartialEq, Eq, Structural)]
pub enum KeyCode {
    Up,
    Down,
    Left,
    Right,
    Enter,
    Esc,
    Tab,
    Backspace,
    Delete,
    Home,
    End,
    PageUp,
    PageDown,
    F(u8),
    Char(char),
    /// Any other key.
    Other,
}

/// A key press: the key and whether Control was held.
#[derive(Debug, Clone, Copy, PartialEq, Eq, Structural)]
pub struct KeyEvent {
    pub code: KeyCode,
    pub ctrl: bool,
}

/// The action a key press means in a mode, if any.
pub open spec fn key_action(code: KeyCode, ctrl: bool, mode: AppMode) -> Option<KeyAction> {
    match mode {
        AppMode::Normal => match (code, ctrl) {
            (KeyCode::Up, false) | (KeyCode::Char('k'), false) => Some(KeyAction::NavigateUp),
            (KeyCode::Down, false) | (KeyCode::Char('j'), false) => Some(KeyAction::NavigateDown),
            (KeyCode::Enter, false) => Some(KeyAction::Select),
            (KeyCode::Char('e'), true) => Some(KeyAction::Edit),
            (KeyCode::Char('n'), true) => Some(KeyAction::Create),
            (KeyCode::Char('d'), true) => Some(KeyAction::Delete),
            (KeyCode::Delete, false) => Some(KeyAction::Delete),
            (KeyCode::Backspace, false) => Some(KeyAction::Backspace),
            (KeyCode::Char('f'), true) => Some(KeyAction::Search),
            (KeyCode::Char('t'), true) => Some(KeyAction::TagFilter),
            (KeyCode::Char('s'), true) => Some(KeyAction::Sort),
            (KeyCode::Char('r'), true) => Some(KeyAction::Refresh),
            (KeyCode::Char('v'), true) => Some(KeyAction::ViewReadOnly),
            (KeyCode::Tab, false) => Some(KeyAction::ToggleFocus),
            (KeyCode::Esc, false) => Some(KeyAction::Cancel),
            (KeyCode::Char('q'), true) => Some(KeyAction::Quit),
            (KeyCode::Char('p'), true) => Some(KeyAction::ThemeMenu),
            (KeyCode::Char('x'), true) => Some(KeyAction::MoveNote),
            (KeyCode::Char('g'), true) => Some(KeyAction::CreateFolder),
            (KeyCode::Char('?'), true) | (KeyCode::Char('k'), true) => Some(KeyAction::Help),
            (KeyCode::F(1), false) => Some(KeyAction::Help),
            (KeyCode::F(2), false) => Some(KeyAction::Rename),
            (KeyCode::PageUp, false) => Some(KeyAction::PageUp),
            (KeyCode::PageDown, false) => Some(KeyAction::PageDown),
            (KeyCode::Home, false) => Some(KeyAction::Home),
            (KeyCode::End, false) => Some(KeyAction::End),
            _ => None,
        },
        AppMode::Search | AppMode::CreateNote | AppMode::Rename | AppMode::CreateFolder => match (
            code,
            ctrl,
        ) {
            (KeyCode::Esc, _) => Some(KeyAction::Cancel),
            (KeyCode::Enter, false) => Some(KeyAction::Select),
            (KeyCode::Backspace, false) => Some(KeyAction::Backspace),
            (KeyCode::Up, false) => Some(KeyAction::NavigateUp),
            (KeyCode::Down, false) => Some(KeyAction::NavigateDown),
            (KeyCode::Char(c), false) => Some(KeyAction::Char(c)),
            _ => None,
        },
        AppMode::TagFilter | AppMode::SortMenu | AppMode::ThemeMenu | AppMode::MoveNote => match (
            code,
            ctrl,
        ) {
            (KeyCode::Up, false) | (KeyCode::Char('k'), false) => Some(KeyAction::NavigateUp),
            (KeyCode::Down, false) | (KeyCode::Char('j'), false) => Some(KeyAction::NavigateDown),
            (KeyCode::Enter, false) => Some(KeyAction::Select),
            (KeyCode::Esc, _) => Some(KeyAction::Cancel),
            _ => None,
        },
        AppMode::ConfirmDelete | AppMode::ConfirmDeleteFolder => match (code, ctrl) {
            (KeyCode::Char('y'), false) | (KeyCode::Enter, false) => Some(KeyAction::Select),
            (KeyCode::Char('n'), false) | (KeyCode::Esc, _) => Some(KeyAction::Cancel),
            _ => None,
        },
        AppMode::Help => match (code, ctrl) {
            (KeyCode::Esc, _) | (KeyCode::F(1), false) | (KeyCode::Char('q'), false) => Some(
                KeyAction::Cancel,
            ),
            (KeyCode::Char('?'), true) => Some(KeyAction::Cancel),
            _ => None,
        },
    }
}

/// Maps a key press to the action it means in `mode`; `None` for unmapped keys.
pub fn map_key_event(event: KeyEvent, mode: &AppMode) -> (r: Option<KeyAction>)
    ensures
        r == key_action(event.code, event.ctrl, *mode),
{
    let code = event.code;
    let ctrl = event.ctrl;
    match mode {
        AppMode::Normal => match (code, ctrl) {
            (KeyCode::Up, false) | (KeyCode::Char('k'), false) => Some(KeyAction::NavigateUp),
            (KeyCode::Down, false) | (KeyCode::Char('j'), false) => Some(KeyAction::NavigateDown),
            (KeyCode::Enter, false) => Some(KeyAction::Select),
            (KeyCode::Char('e'), true) => Some(KeyAction::Edit),
            (KeyCode::Char('n'), true) => Some(KeyAction::Create),
            (KeyCode::Char('d'), true) => Some(KeyAction::Delete),
            (KeyCode::Delete, false) => Some(KeyAction::Delete),
            (KeyCode::Backspace, false) => Some(KeyAction::Backspace),
            (KeyCode::Char('f'), true) => Some(KeyAction::Search),
            (KeyCode::Char('t'), true) => Some(KeyAction::TagFilter),
            (KeyCode::Char('s'), true) => Some(KeyAction::Sort),
            (KeyCode::Char('r'), true) => Some(KeyAction::Refresh),
            (KeyCode::Char('v'), true) => Some(KeyAction::ViewReadOnly),
            (KeyCode::Tab, false) => Some(KeyAction::ToggleFocus),
            (KeyCode::Esc, false) => Some(KeyAction::Cancel),
            (KeyCode::Char('q'), true) => Some(KeyAction::Quit),
            (KeyCode::Char('p'), true) => Some(KeyAction::ThemeMenu),
            (KeyCode::Char('x'), true) => Some(KeyAction::MoveNote),
            (KeyCode::Char('g'), true) => Some(KeyAction::CreateFolder),
            (KeyCode::Char('?'), true) | (KeyCode::Char('k'), true) => Some(KeyAction::Help),
            (KeyCode::F(1), false) => Some(KeyAction::Help),
            (KeyCode::F(2), false) => Some(KeyAction::Rename),
            (KeyCode::PageUp, false) => Some(KeyAction::PageUp),
            (KeyCode::PageDown, false) => Some(KeyAction::PageDown),
            (KeyCode::Home, false) => Some(KeyAction::Home),
            (KeyCode::End, false) => Some(KeyAction::End),
            _ => None,
        },
        AppMode::Search | AppMode::CreateNote | AppMode::Rename | AppMode::CreateFolder => match (
            code,
            ctrl,
        ) {
            (KeyCode::Esc, _) => Some(KeyAction::Cancel),
            (KeyCode::Enter, false) => Some(KeyAction::Select),
            (KeyCode::Backspace, false) => Some(KeyAction::Backspace),
            (KeyCode::Up, false) => Some(KeyAction::NavigateUp),
            (KeyCode::Down, false) => Some(KeyAction::NavigateDown),
            (KeyCode::Char(c), false) => Some(KeyAction::Char(c)),
            _ => None,
        },
        AppMode::TagFilter | AppMode::SortMenu | AppMode::ThemeMenu | AppMode::MoveNote => match (
            code,
            ctrl,
        ) {
            (KeyCode::Up, false) | (KeyCode::Char('k'), false) => Some(KeyAction::NavigateUp),
            (KeyCode::Down, false) | (KeyCode::Char('j'), false) => Some(KeyAction::NavigateDown),
            (KeyCode::Enter, false) => Some(KeyAction::Select),
            (KeyCode::Esc, _) => Some(KeyAction::Cancel),
            _ => None,
        },
        AppMode::ConfirmDelete | AppMode::ConfirmDeleteFolder => match (code, ctrl) {
            (KeyCode::Char('y'), false) | (KeyCode::Enter, false) => Some(KeyAction::Select),
            (KeyCode::Char('n'), false) | (KeyCode::Esc, _) => Some(KeyAction::Cancel),
            _ => None,
        },
        AppMode::Help => match (code, ctrl) {
            (KeyCode::Esc, _) | (KeyCode::F(1), false) | (KeyCode::Char('q'), false) => Some(
                KeyAction::Cancel,
            ),
            (KeyCode::Char('?'), true) => Some(KeyAction::Cancel),
            _ => None,
        },
    }
}

} // verus!
