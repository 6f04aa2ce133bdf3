use mdview::keys::{handle_key, menu_entries, menu_item_label, Key, KeyAction, KeyOutcome, ViewerState};

fn state(menu_visible: bool, theme_index: usize, has_file: bool) -> ViewerState {
    ViewerState { menu_visible, theme_index, has_file }
}

fn stop(action: KeyAction) -> KeyOutcome {
    KeyOutcome { action, stop: true }
}

#[test]
fn m_opens_menu() {
    let mut s = state(false, 0, true);
    assert_eq!(handle_key(&mut s, Key::M, false), stop(KeyAction::OpenMenu));
    assert!(s.menu_visible);
}

#[test]
fn ctrl_m_is_passed_on() {
    let mut s = state(false, 2, true);
    let out = handle_key(&mut s, Key::M, true);
    assert_eq!(out, KeyOutcome { action: KeyAction::Nothing, stop: false });
    assert_eq!(s, state(false, 2, true));
}

#[test]
fn p_in_menu_prints_and_closes() {
    let mut s = state(true, 3, true);
    assert_eq!(handle_key(&mut s, Key::P, false), stop(KeyAction::PrintAndCloseMenu));
    assert_eq!(s, state(false, 3, true));
}

#[test]
fn any_key_in_menu_closes_it() {
    for key in [Key::Escape, Key::Q, Key::T, Key::Other, Key::Zero] {
        for ctrl in [false, true] {
            let mut s = state(true, 1, false);
            assert_eq!(handle_key(&mut s, key, ctrl), stop(KeyAction::CloseMenu));
            assert_eq!(s, state(false, 1, false));
        }
    }
}

#[test]
fn q_and_escape_quit() {
    let mut s = state(false, 0, true);
    assert_eq!(handle_key(&mut s, Key::Q, false), stop(KeyAction::Quit));
    assert_eq!(handle_key(&mut s, Key::Escape, false), stop(KeyAction::Quit));
    assert_eq!(handle_key(&mut s, Key::Escape, true), stop(KeyAction::Quit));
    assert_eq!(handle_key(&mut s, Key::Q, true), KeyOutcome { action: KeyAction::Nothing, stop: false });
}

#[test]
fn t_cycles_through_five_themes() {
    let mut s = state(false, 3, true);
    let mut seen = Vec::new();
    for _ in 0..5 {
        match handle_key(&mut s, Key::T, false) {
            KeyOutcome { action: KeyAction::SwitchTheme(k), stop: true } => {
                assert_eq!(k, s.theme_index);
                seen.push(k);
            }
            other => panic!("unexpected outcome {:?}", other),
        }
    }
    assert_eq!(seen, vec![4, 0, 1, 2, 3]);
    assert_eq!(s.theme_index, 3);
}

#[test]
fn t_wraps_a_large_remembered_index() {
    let mut s = state(false, 12, false);
    assert_eq!(handle_key(&mut s, Key::T, false), stop(KeyAction::SwitchTheme(3)));
    assert_eq!(s.theme_index, 3);
}

#[test]
fn r_reloads_only_files() {
    let mut s = state(false, 0, true);
    assert_eq!(handle_key(&mut s, Key::R, false), stop(KeyAction::Reload));
    let mut s = state(false, 0, false);
    assert_eq!(handle_key(&mut s, Key::R, false), stop(KeyAction::Nothing));
}

#[test]
fn ctrl_keys_zoom() {
    let mut s = state(false, 0, true);
    assert_eq!(handle_key(&mut s, Key::Plus, true), stop(KeyAction::ZoomIn));
    assert_eq!(handle_key(&mut s, Key::Equal, true), stop(KeyAction::ZoomIn));
    assert_eq!(handle_key(&mut s, Key::Minus, true), stop(KeyAction::ZoomOut));
    assert_eq!(handle_key(&mut s, Key::Zero, true), stop(KeyAction::ZoomReset));
    assert_eq!(handle_key(&mut s, Key::Plus, false), KeyOutcome { action: KeyAction::Nothing, stop: false });
    assert_eq!(s, state(false, 0, true));
}

#[test]
fn menu_lines_are_aligned() {
    let entries = menu_entries();
    assert_eq!(entries, vec![("p", "Print / Export PDF"), ("Esc", "Close menu")]);
    assert_eq!(menu_item_label("p", "Print / Export PDF"), "p     Print / Export PDF");
    assert_eq!(menu_item_label("Esc", "Close menu"), "Esc   Close menu");
    assert_eq!(menu_item_label("Longer", "x"), "Longer x");
    for (k, d) in entries {
        assert_eq!(menu_item_label(k, d), format!("{:<5} {}", k, d));
    }
}
