use mdview::desktop::{is_dark_mode, is_external_link, names_dark_theme, reloads_on, DisplaySettings, FileChange};
use mdview::text::{str_contains, str_starts_with};
use mdview::theme::get_theme;
use mdview::window::{
    document_title, initial_window_size, restore_window_state, theme_change_message, window_title, DocumentOrigin,
    WindowState,
};

fn settings(prefer_dark_theme: bool, name: Option<&str>) -> Option<DisplaySettings> {
    Some(DisplaySettings { prefer_dark_theme, theme_name: name.map(|n| n.to_string()) })
}

#[test]
fn dark_mode_detection() {
    assert!(!is_dark_mode(&None));
    assert!(is_dark_mode(&settings(true, None)));
    assert!(is_dark_mode(&settings(true, Some("Adwaita"))));
    assert!(!is_dark_mode(&settings(false, Some("Adwaita"))));
    assert!(is_dark_mode(&settings(false, Some("Adwaita-dark"))));
    assert!(is_dark_mode(&settings(false, Some("Yaru-DARK"))));
    assert!(!is_dark_mode(&settings(false, None)));
    // KELVIN SIGN lower-cases to 'k'.
    assert!(is_dark_mode(&settings(false, Some("DAR\u{212A}"))));
    assert!(!is_dark_mode(&settings(false, Some("dar k"))));
}

#[test]
fn dark_word_search() {
    assert!(names_dark_theme("adwaita-dark"));
    assert!(!names_dark_theme("Dark"));
    assert!(str_contains("abc", ""));
    assert!(str_contains("aab", "ab"));
    assert!(!str_contains("ab", "abc"));
    assert!(str_starts_with("https://x", "https://"));
    assert!(!str_starts_with("http", "https"));
}

#[test]
fn web_links_leave_the_viewer() {
    assert!(is_external_link("http://example.com"));
    assert!(is_external_link("https://example.com/a?b"));
    assert!(!is_external_link("file:///home/u/a.md"));
    assert!(!is_external_link("#section"));
    assert!(!is_external_link("HTTP://example.com"));
    assert!(!is_external_link("http:/x"));
}

#[test]
fn only_content_changes_reload() {
    assert!(reloads_on(FileChange::Changed));
    assert!(reloads_on(FileChange::ChangesDoneHint));
    assert!(!reloads_on(FileChange::Other));
}

#[test]
fn window_state_defaults_and_restoring() {
    let d = WindowState::default();
    assert_eq!(d, WindowState { width: 900, height: 700, theme_index: 0 });
    assert_eq!(restore_window_state(None), d);
    let saved = WindowState { width: 1200, height: 800, theme_index: 3 };
    assert_eq!(restore_window_state(Some(saved)), saved);
}

#[test]
fn command_line_size_wins() {
    let saved = WindowState { width: 1200, height: 800, theme_index: 3 };
    assert_eq!(initial_window_size(None, None, &saved), (1200, 800));
    assert_eq!(initial_window_size(Some(640), None, &saved), (640, 800));
    assert_eq!(initial_window_size(Some(640), Some(480), &saved), (640, 480));
}

#[test]
fn titles() {
    assert_eq!(document_title(&DocumentOrigin::File { file_name: Some("README.md".to_string()) }), "README.md");
    assert_eq!(document_title(&DocumentOrigin::File { file_name: None }), "mdview");
    assert_eq!(document_title(&DocumentOrigin::Stdin), "stdin");
    assert_eq!(window_title("README.md"), "mdview \u{2014} README.md");
}

#[test]
fn theme_message() {
    assert_eq!(theme_change_message(&get_theme(true, 1), true), "mdview: theme \u{2192} Mocha (dark)");
    assert_eq!(theme_change_message(&get_theme(false, 2), false), "mdview: theme \u{2192} Cool (light)");
}
