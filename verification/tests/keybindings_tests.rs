use deez_notes::app::{AppMode, KeyAction};
use deez_notes::keybindings::{map_key_event, KeyCode, KeyEvent};

fn key(code: KeyCode, ctrl: bool) -> KeyEvent {
    KeyEvent { code, ctrl }
}

fn plain(code: KeyCode) -> KeyEvent {
    key(code, false)
}

fn ctrl(c: char) -> KeyEvent {
    key(KeyCode::Char(c), true)
}
// -- Normal mode -------------------------------------------------------

#[test]
fn normal_arrow_up() {
    assert_eq!(
        map_key_event(plain(KeyCode::Up), &AppMode::Normal),
        Some(KeyAction::NavigateUp),
    );
}

#[test]
fn normal_k_navigates_up() {
    assert_eq!(
        map_key_event(plain(KeyCode::Char('k')), &AppMode::Normal),
        Some(KeyAction::NavigateUp),
    );
}

#[test]
fn normal_arrow_down() {
    assert_eq!(
        map_key_event(plain(KeyCode::Down), &AppMode::Normal),
        Some(KeyAction::NavigateDown),
    );
}

#[test]
fn normal_j_navigates_down() {
    assert_eq!(
        map_key_event(plain(KeyCode::Char('j')), &AppMode::Normal),
        Some(KeyAction::NavigateDown),
    );
}

#[test]
fn normal_enter_selects() {
    assert_eq!(
        map_key_event(plain(KeyCode::Enter), &AppMode::Normal),
        Some(KeyAction::Select),
    );
}

#[test]
fn normal_ctrl_e_edits() {
    assert_eq!(
        map_key_event(ctrl('e'), &AppMode::Normal),
        Some(KeyAction::Edit),
    );
}

#[test]
fn normal_ctrl_n_creates() {
    assert_eq!(
        map_key_event(ctrl('n'), &AppMode::Normal),
        Some(KeyAction::Create),
    );
}

#[test]
fn normal_ctrl_d_deletes() {
    assert_eq!(
        map_key_event(ctrl('d'), &AppMode::Normal),
        Some(KeyAction::Delete),
    );
}

#[test]
fn normal_delete_key_deletes() {
    assert_eq!(
        map_key_event(plain(KeyCode::Delete), &AppMode::Normal),
        Some(KeyAction::Delete),
    );
}

#[test]
fn normal_ctrl_f_searches() {
    assert_eq!(
        map_key_event(ctrl('f'), &AppMode::Normal),
        Some(KeyAction::Search),
    );
}

#[test]
fn normal_ctrl_t_tag_filter() {
    assert_eq!(
        map_key_event(ctrl('t'), &AppMode::Normal),
        Some(KeyAction::TagFilter),
    );
}

#[test]
fn normal_ctrl_s_sorts() {
    assert_eq!(
        map_key_event(ctrl('s'), &AppMode::Normal),
        Some(KeyAction::Sort),
    );
}

#[test]
fn normal_ctrl_v_views_read_only() {
    assert_eq!(
        map_key_event(ctrl('v'), &AppMode::Normal),
        Some(KeyAction::ViewReadOnly),
    );
}

#[test]
fn normal_ctrl_r_refreshes() {
    assert_eq!(
        map_key_event(ctrl('r'), &AppMode::Normal),
        Some(KeyAction::Refresh),
    );
}

#[test]
fn normal_tab_toggles_focus() {
    assert_eq!(
        map_key_event(plain(KeyCode::Tab), &AppMode::Normal),
        Some(KeyAction::ToggleFocus),
    );
}

#[test]
fn normal_escape_cancels() {
    assert_eq!(
        map_key_event(plain(KeyCode::Esc), &AppMode::Normal),
        Some(KeyAction::Cancel),
    );
}

#[test]
fn normal_ctrl_q_quits() {
    assert_eq!(
        map_key_event(ctrl('q'), &AppMode::Normal),
        Some(KeyAction::Quit),
    );
}

#[test]
fn normal_ctrl_question_help() {
    assert_eq!(
        map_key_event(
            key(KeyCode::Char('?'), true),
            &AppMode::Normal,
        ),
        Some(KeyAction::Help),
    );
}

#[test]
fn normal_f1_help() {
    assert_eq!(
        map_key_event(plain(KeyCode::F(1)), &AppMode::Normal),
        Some(KeyAction::Help),
    );
}

#[test]
fn normal_f2_rename() {
    assert_eq!(
        map_key_event(plain(KeyCode::F(2)), &AppMode::Normal),
        Some(KeyAction::Rename),
    );
}

#[test]
fn normal_page_up() {
    assert_eq!(
        map_key_event(plain(KeyCode::PageUp), &AppMode::Normal),
        Some(KeyAction::PageUp),
    );
}

#[test]
fn normal_page_down() {
    assert_eq!(
        map_key_event(plain(KeyCode::PageDown), &AppMode::Normal),
        Some(KeyAction::PageDown),
    );
}

#[test]
fn normal_home() {
    assert_eq!(
        map_key_event(plain(KeyCode::Home), &AppMode::Normal),
        Some(KeyAction::Home),
    );
}

#[test]
fn normal_end() {
    assert_eq!(
        map_key_event(plain(KeyCode::End), &AppMode::Normal),
        Some(KeyAction::End),
    );
}

#[test]
fn normal_unmapped_returns_none() {
    assert_eq!(
        map_key_event(plain(KeyCode::Char('z')), &AppMode::Normal),
        None,
    );
}

// -- Search mode -------------------------------------------------------

#[test]
fn search_escape_cancels() {
    assert_eq!(
        map_key_event(plain(KeyCode::Esc), &AppMode::Search),
        Some(KeyAction::Cancel),
    );
}

#[test]
fn search_enter_selects() {
    assert_eq!(
        map_key_event(plain(KeyCode::Enter), &AppMode::Search),
        Some(KeyAction::Select),
    );
}

#[test]
fn search_char_input() {
    assert_eq!(
        map_key_event(plain(KeyCode::Char('a')), &AppMode::Search),
        Some(KeyAction::Char('a')),
    );
}

#[test]
fn search_backspace() {
    assert_eq!(
        map_key_event(plain(KeyCode::Backspace), &AppMode::Search),
        Some(KeyAction::Backspace),
    );
}

#[test]
fn search_arrow_up_navigates() {
    assert_eq!(
        map_key_event(plain(KeyCode::Up), &AppMode::Search),
        Some(KeyAction::NavigateUp),
    );
}

#[test]
fn search_arrow_down_navigates() {
    assert_eq!(
        map_key_event(plain(KeyCode::Down), &AppMode::Search),
        Some(KeyAction::NavigateDown),
    );
}

// -- ConfirmDelete mode ------------------------------------------------

#[test]
fn confirm_y_selects() {
    assert_eq!(
        map_key_event(plain(KeyCode::Char('y')), &AppMode::ConfirmDelete),
        Some(KeyAction::Select),
    );
}

#[test]
fn confirm_n_cancels() {
    assert_eq!(
        map_key_event(plain(KeyCode::Char('n')), &AppMode::ConfirmDelete),
        Some(KeyAction::Cancel),
    );
}

// -- Help mode ---------------------------------------------------------

#[test]
fn help_escape_cancels() {
    assert_eq!(
        map_key_event(plain(KeyCode::Esc), &AppMode::Help),
        Some(KeyAction::Cancel),
    );
}

#[test]
fn help_q_cancels() {
    assert_eq!(
        map_key_event(plain(KeyCode::Char('q')), &AppMode::Help),
        Some(KeyAction::Cancel),
    );
}

#[test]
fn help_f1_cancels() {
    assert_eq!(
        map_key_event(plain(KeyCode::F(1)), &AppMode::Help),
        Some(KeyAction::Cancel),
    );
}

// -- TagFilter mode ----------------------------------------------------

#[test]
fn tag_filter_enter_selects() {
    assert_eq!(
        map_key_event(plain(KeyCode::Enter), &AppMode::TagFilter),
        Some(KeyAction::Select),
    );
}

#[test]
fn tag_filter_escape_cancels() {
    assert_eq!(
        map_key_event(plain(KeyCode::Esc), &AppMode::TagFilter),
        Some(KeyAction::Cancel),
    );
}

#[test]
fn rapid_key_sequences_map_independently() {
    // Simulate multiple keys in quick succession; each maps independently
    let keys = vec![
        (plain(KeyCode::Up), &AppMode::Normal, Some(KeyAction::NavigateUp)),
        (plain(KeyCode::Down), &AppMode::Normal, Some(KeyAction::NavigateDown)),
        (plain(KeyCode::Enter), &AppMode::Normal, Some(KeyAction::Select)),
        (ctrl('e'), &AppMode::Normal, Some(KeyAction::Edit)),
        (ctrl('n'), &AppMode::Normal, Some(KeyAction::Create)),
    ];

    for (event, mode, expected) in keys {
        assert_eq!(
            map_key_event(event, mode),
            expected,
            "key sequence should map independently"
        );
    }
}

#[test]
fn all_ctrl_combinations_no_crash() {
    // Every Ctrl+letter in Normal mode maps to an action or to None, never
    // crashes. Ctrl+P (theme menu), Ctrl+K (help), Ctrl+X (move note) and
    // Ctrl+G (create folder) are mapped as the README and the help dialog
    // document them; every other unlisted Ctrl+letter is unmapped.
    for c in 'a'..='z' {
        let result = map_key_event(ctrl(c), &AppMode::Normal);
        match c {
            'e' => assert_eq!(result, Some(KeyAction::Edit)),
            'n' => assert_eq!(result, Some(KeyAction::Create)),
            'd' => assert_eq!(result, Some(KeyAction::Delete)),
            'f' => assert_eq!(result, Some(KeyAction::Search)),
            't' => assert_eq!(result, Some(KeyAction::TagFilter)),
            's' => assert_eq!(result, Some(KeyAction::Sort)),
            'r' => assert_eq!(result, Some(KeyAction::Refresh)),
            'v' => assert_eq!(result, Some(KeyAction::ViewReadOnly)),
            'q' => assert_eq!(result, Some(KeyAction::Quit)),
            'p' => assert_eq!(result, Some(KeyAction::ThemeMenu)),
            'k' => assert_eq!(result, Some(KeyAction::Help)),
            'x' => assert_eq!(result, Some(KeyAction::MoveNote)),
            'g' => assert_eq!(result, Some(KeyAction::CreateFolder)),
            _ => assert_eq!(result, None, "Ctrl+{} should be unmapped", c),
        }
    }
}

#[test]
fn all_ctrl_combinations_in_search_mode_no_crash() {
    // In Search mode, Ctrl+<char> combos should all return None
    // (since chars only map without Ctrl modifier)
    for c in 'a'..='z' {
        let result = map_key_event(ctrl(c), &AppMode::Search);
        // In Search/CreateNote/Rename, Char(c) maps only with false ctrl
        // ctrl chars should return None
        assert_eq!(result, None, "Ctrl+{} in Search should be None", c);
    }
}

#[test]
fn normal_backspace_goes_to_parent_folder() {
    assert_eq!(
        map_key_event(plain(KeyCode::Backspace), &AppMode::Normal),
        Some(KeyAction::Backspace),
    );
}

#[test]
fn normal_ctrl_p_opens_theme_menu() {
    assert_eq!(map_key_event(ctrl('p'), &AppMode::Normal), Some(KeyAction::ThemeMenu));
}

#[test]
fn normal_ctrl_k_shows_help() {
    assert_eq!(map_key_event(ctrl('k'), &AppMode::Normal), Some(KeyAction::Help));
}
