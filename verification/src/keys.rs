//! The viewer's keyboard handling as a state machine.
//!
//! The window toolkit delivers key presses; this module decides what each
//! press does to the viewer's state and which action the shell around it
//! must carry out (quit, print, re-render, zoom, ...).
use vstd::prelude::*;
use crate::text::push_char;
use crate::theme::THEME_COUNT;

verus! {

/// The keys the viewer reacts to; every other key is `Other`.
#[derive(Clone, Copy, Debug, PartialEq, Eq, Structural)]
pub enum Key {
    P,
    M,
    Q,
    T,
    R,
    Plus,
    Equal,
    Minus,
    Zero,
    Escape,
    Other,
}

/// What the viewer remembers between key presses.
#[derive(Clone, Copy, Debug, PartialEq, Eq, Structural)]
pub struct ViewerState {
    /// Whether the overlay menu is shown.
    pub menu_visible: bool,
    /// Index of the current colour theme (taken modulo the number of themes).
    pub theme_index: usize,
    /// Whether the document came from a file (so it can be re-read).
    pub has_file: bool,
}

/// What the shell must do after a key press.
#[derive(Clone, Copy, Debug, PartialEq, Eq, Structural)]
pub enum KeyAction {
    /// Nothing to do.
    Nothing,
    /// Show the overlay menu.
    OpenMenu,
    /// Hide the overlay menu.
    CloseMenu,
    /// Open the print dialog, then hide the overlay menu.
    PrintAndCloseMenu,
    /// Close the window.
    Quit,
    /// Re-render the document with the theme of the given index.
    SwitchTheme(usize),
    /// Re-read the document file and render it again.
    Reload,
    /// Enlarge the page by one zoom step.
    ZoomIn,
    /// Shrink the page by one zoom step.
    ZoomOut,
    /// Return to the default zoom.
    ZoomReset,
}

/// The action to take and whether the key press is consumed (`stop`) or
/// passed on to the page.
#[derive(Clone, Copy, Debug, PartialEq, Eq, Structural)]
pub struct KeyOutcome {
    pub action: KeyAction,
    pub stop: bool,
}

/// Whether this press (outside the menu) asks for the next theme.
pub open spec fn is_theme_key(s: ViewerState, key: Key, ctrl: bool) -> bool {
    !s.menu_visible && key is T && !ctrl
}

/// The theme index that follows `i` in the cycle.
pub open spec fn next_theme_index(i: int) -> int {
    (i + 1) % (THEME_COUNT as int)
}

/// The state after a key press.
pub open spec fn next_state(s: ViewerState, key: Key, ctrl: bool) -> ViewerState {
    if s.menu_visible {
        ViewerState { menu_visible: false, theme_index: s.theme_index, has_file: s.has_file }
    } else if key is M && !ctrl {
        ViewerState { menu_visible: true, theme_index: s.theme_index, has_file: s.has_file }
    } else if is_theme_key(s, key, ctrl) {
        ViewerState {
            menu_visible: s.menu_visible,
            theme_index: next_theme_index(s.theme_index as int) as usize,
            has_file: s.has_file,
        }
    } else {
        s
    }
}

/// The outcome of a key press.
pub open spec fn key_outcome(s: ViewerState, key: Key, ctrl: bool) -> KeyOutcome {
    let stop = |a: KeyAction| KeyOutcome { action: a, stop: true };
    if s.menu_visible {
        if key is P { stop(KeyAction::PrintAndCloseMenu) } else { stop(KeyAction::CloseMenu) }
    } else if key is M && !ctrl {
        stop(KeyAction::OpenMenu)
    } else if (key is Q && !ctrl) || key is Escape {
        stop(KeyAction::Quit)
    } else if key is T && !ctrl {
        stop(KeyAction::SwitchTheme(next_theme_index(s.theme_index as int) as usize))
    } else if key is R && !ctrl {
        if s.has_file { stop(KeyAction::Reload) } else { stop(KeyAction::Nothing) }
    } else if (key is Plus || key is Equal) && ctrl {
        stop(KeyAction::ZoomIn)
    } else if key is Minus && ctrl {
        stop(KeyAction::ZoomOut)
    } else if key is Zero && ctrl {
        stop(KeyAction::ZoomReset)
    } else {
        KeyOutcome { action: KeyAction::Nothing, stop: false }
    }
}

/// Handles one key press: updates the viewer state and says what to do.
///
/// While the menu is shown, any key closes it (`p` prints first). Otherwise
/// `m` opens the menu, `q` or `Esc` quits, `t` moves to the next theme, `r`
/// reloads a file-backed document, and `Ctrl` with `+`/`=`, `-` or `0`
/// zooms. Other keys are passed on.
pub fn handle_key(state: &mut ViewerState, key: Key, ctrl: bool) -> (out: KeyOutcome)
    requires
        is_theme_key(*old(state), key, ctrl) ==> old(state).theme_index < usize::MAX,
    ensures
        *final(state) == next_state(*old(state), key, ctrl),
        out == key_outcome(*old(state), key, ctrl),
        !old(state).menu_visible && key is Other ==> out == (KeyOutcome { action: KeyAction::Nothing, stop: false })
            && *final(state) == *old(state),
{
    if state.menu_visible {
        state.menu_visible = false;
        let action = match key {
            Key::P => KeyAction::PrintAndCloseMenu,
            _ => KeyAction::CloseMenu,
        };
        return KeyOutcome { action, stop: true };
    }
    let action = match (key, ctrl) {
        (Key::M, false) => {
            state.menu_visible = true;
            KeyAction::OpenMenu
        },
        (Key::Q, false) | (Key::Escape, _) => KeyAction::Quit,
        (Key::T, false) => {
            let next = (state.theme_index + 1) % THEME_COUNT;
            state.theme_index = next;
            KeyAction::SwitchTheme(next)
        },
        (Key::R, false) => {
            if state.has_file {
                KeyAction::Reload
            } else {
                KeyAction::Nothing
            }
        },
        (Key::Plus, true) | (Key::Equal, true) => KeyAction::ZoomIn,
        (Key::Minus, true) => KeyAction::ZoomOut,
        (Key::Zero, true) => KeyAction::ZoomReset,
        _ => {
            return KeyOutcome { action: KeyAction::Nothing, stop: false };
        },
    };
    KeyOutcome { action, stop: true }
}


/// Width of the key column in the overlay menu.
pub const MENU_KEY_WIDTH: usize = 5;

/// `s` padded with spaces on the right to at least `width` characters.
pub open spec fn pad_right(s: Seq<char>, width: nat) -> Seq<char> {
    if s.len() >= width {
        s
    } else {
        s + Seq::new((width - s.len()) as nat, |i: int| ' ')
    }
}

/// The overlay menu's entries, as (key, description) pairs.
pub fn menu_entries() -> (entries: Vec<(&'static str, &'static str)>)
    ensures
        entries@.len() == 2,
        entries@[0].0@ == "p"@,
        entries@[0].1@ == "Print / Export PDF"@,
        entries@[1].0@ == "Esc"@,
        entries@[1].1@ == "Close menu"@,
{
    let mut entries = Vec::new();
    entries.push(("p", "Print / Export PDF"));
    entries.push(("Esc", "Close menu"));
    entries
}

/// One line of the overlay menu: the key left-aligned in a column of
/// `MENU_KEY_WIDTH` characters, a space, then the description.
pub fn menu_item_label(key: &str, desc: &str) -> (label: String)
    ensures
        label@ == pad_right(key@, MENU_KEY_WIDTH as nat) + " "@ + desc@,
{
    let mut label = String::from_str(key);
    let mut n = key.unicode_len();
    while n < MENU_KEY_WIDTH
        invariant
            key@.len() <= n <= MENU_KEY_WIDTH || (n == key@.len() && n >= MENU_KEY_WIDTH),
            label@ == key@ + Seq::new((n - key@.len()) as nat, |i: int| ' '),
        decreases MENU_KEY_WIDTH - n,
    {
        push_char(&mut label, ' ');
        n += 1;
        assert(label@ =~= key@ + Seq::new((n - key@.len()) as nat, |i: int| ' '));
    }
    assert(label@ =~= pad_right(key@, MENU_KEY_WIDTH as nat));
    label.append(" ");
    label.append(desc);
    label
}

/// The state after `n` presses of the same key.
pub open spec fn press_n(s: ViewerState, key: Key, ctrl: bool, n: nat) -> ViewerState
    decreases n,
{
    if n == 0 {
        s
    } else {
        next_state(press_n(s, key, ctrl, (n - 1) as nat), key, ctrl)
    }
}

/// While the menu is shown, every key press closes it and is consumed;
/// `p` prints before closing, any other key only closes; the theme stays.
pub proof fn lemma_menu_closes_on_any_key(s: ViewerState, key: Key, ctrl: bool)
    requires
        s.menu_visible,
    ensures
        !next_state(s, key, ctrl).menu_visible,
        next_state(s, key, ctrl).theme_index == s.theme_index,
        key_outcome(s, key, ctrl).stop,
        key_outcome(s, key, ctrl).action == (if key is P {
            KeyAction::PrintAndCloseMenu
        } else {
            KeyAction::CloseMenu
        }),
{
}

/// Outside the menu, a key that is none of the shortcuts (`m`, `q`, `t`,
/// `r` without `Ctrl`; `Esc`; `Ctrl` with `+`, `=`, `-` or `0`) is passed on
/// to the page (so arrows, Space and Page Up/Down still scroll): it is not
/// consumed, asks for nothing and leaves the state as it was.
pub proof fn lemma_non_shortcut_keys_pass_through(s: ViewerState, key: Key, ctrl: bool)
    requires
        !s.menu_visible,
        key is Other || key is P
            || (ctrl && (key is M || key is Q || key is T || key is R))
            || (!ctrl && (key is Plus || key is Equal || key is Minus || key is Zero)),
    ensures
        !key_outcome(s, key, ctrl).stop,
        key_outcome(s, key, ctrl).action == KeyAction::Nothing,
        next_state(s, key, ctrl) == s,
{
}

/// Outside the menu, every shortcut is consumed and asks for its own
/// action: `m` opens the menu, `q` and `Esc` quit, `t` switches to the
/// theme after the current one (wrapping after the last), `r` reloads a
/// document read from a file, and `Ctrl` with `+`/`=`, `-` and `0` zooms
/// in, out and back to the default.
pub proof fn lemma_shortcut_actions(s: ViewerState, key: Key, ctrl: bool)
    requires
        !s.menu_visible,
        s.theme_index < usize::MAX,
    ensures
        key is M && !ctrl ==> key_outcome(s, key, ctrl) == (KeyOutcome { action: KeyAction::OpenMenu, stop: true })
            && next_state(s, key, ctrl).menu_visible
            && next_state(s, key, ctrl).theme_index == s.theme_index,
        (key is Q && !ctrl) || key is Escape ==> key_outcome(s, key, ctrl) == (KeyOutcome { action: KeyAction::Quit, stop: true })
            && next_state(s, key, ctrl) == s,
        key is T && !ctrl ==> key_outcome(s, key, ctrl) == (KeyOutcome {
            action: KeyAction::SwitchTheme(((s.theme_index + 1) % (THEME_COUNT as int)) as usize),
            stop: true,
        }) && next_state(s, key, ctrl).theme_index == (s.theme_index + 1) % (THEME_COUNT as int)
            && !next_state(s, key, ctrl).menu_visible,
        key is R && !ctrl ==> key_outcome(s, key, ctrl) == (KeyOutcome {
            action: if s.has_file { KeyAction::Reload } else { KeyAction::Nothing },
            stop: true,
        }) && next_state(s, key, ctrl) == s,
        (key is Plus || key is Equal) && ctrl ==> key_outcome(s, key, ctrl) == (KeyOutcome { action: KeyAction::ZoomIn, stop: true })
            && next_state(s, key, ctrl) == s,
        key is Minus && ctrl ==> key_outcome(s, key, ctrl) == (KeyOutcome { action: KeyAction::ZoomOut, stop: true })
            && next_state(s, key, ctrl) == s,
        key is Zero && ctrl ==> key_outcome(s, key, ctrl) == (KeyOutcome { action: KeyAction::ZoomReset, stop: true })
            && next_state(s, key, ctrl) == s,
{
}

/// A key press that is not consumed changes nothing and asks for nothing.
pub proof fn lemma_unhandled_key_is_passed_on(s: ViewerState, key: Key, ctrl: bool)
    requires
        !key_outcome(s, key, ctrl).stop,
    ensures
        next_state(s, key, ctrl) == s,
        key_outcome(s, key, ctrl).action == KeyAction::Nothing,
{
}

/// A theme switch names exactly the theme index the new state holds, and
/// that index is always a valid theme slot.
pub proof fn lemma_switch_theme_matches_state(s: ViewerState, key: Key, ctrl: bool, k: usize)
    requires
        key_outcome(s, key, ctrl).action == KeyAction::SwitchTheme(k),
    ensures
        next_state(s, key, ctrl).theme_index == k,
        k < THEME_COUNT,
{
}

/// Pressing `t` once per theme brings the viewer back to the theme slot it
/// started on, and every press lands on a valid slot.
pub proof fn lemma_theme_cycle_returns(s: ViewerState)
    requires
        !s.menu_visible,
    ensures
        press_n(s, Key::T, false, THEME_COUNT as nat).theme_index == s.theme_index % THEME_COUNT,
        forall|n: nat|
            1 <= n ==> #[trigger] press_n(s, Key::T, false, n).theme_index < THEME_COUNT,
{
    reveal_with_fuel(press_n, 6);
    let i = s.theme_index as int;
    assert((((((i + 1) % 5 + 1) % 5 + 1) % 5 + 1) % 5 + 1) % 5 == i % 5) by (nonlinear_arith);
    assert forall|n: nat| 1 <= n implies #[trigger] press_n(s, Key::T, false, n).theme_index
        < THEME_COUNT by {
        lemma_press_t_stays_in_range(s, n);
    }
}

proof fn lemma_press_t_stays_in_range(s: ViewerState, n: nat)
    requires
        !s.menu_visible,
        1 <= n,
    ensures
        press_n(s, Key::T, false, n).theme_index < THEME_COUNT,
        !press_n(s, Key::T, false, n).menu_visible,
    decreases n,
{
    reveal_with_fuel(press_n, 2);
    if n > 1 {
        lemma_press_t_stays_in_range(s, (n - 1) as nat);
    }
}

} // verus!
