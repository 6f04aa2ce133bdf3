//! The window: its remembered size and theme, its title, and messages.
use vstd::prelude::*;
use crate::theme::PageTheme;

verus! {

/// What the viewer remembers between sessions.
#[derive(Clone, Copy, Debug, PartialEq, Eq, Structural)]
pub struct WindowState {
    /// Window width in pixels.
    pub width: i32,
    /// Window height in pixels.
    pub height: i32,
    /// Index of the colour theme last used.
    pub theme_index: usize,
}

impl Default for WindowState {
    /// A 900 by 700 window in the first theme.
    fn default() -> (s: Self)
        ensures
            s == (WindowState { width: 900, height: 700, theme_index: 0 }),
    {
        WindowState { width: 900, height: 700, theme_index: 0 }
    }
}

/// The state to start from: the one read back from the last session if
/// there is one, else the default.
pub fn restore_window_state(loaded: Option<WindowState>) -> (s: WindowState)
    ensures
        s == match loaded {
            Some(l) => l,
            None => WindowState { width: 900, height: 700, theme_index: 0 },
        },
{
    match loaded {
        Some(l) => l,
        None => WindowState::default(),
    }
}

/// The window's initial size: the size given on the command line where
/// one is given, else the remembered one.
pub fn initial_window_size(cli_width: Option<i32>, cli_height: Option<i32>, saved: &WindowState) -> (size: (i32, i32))
    ensures
        size.0 == match cli_width { Some(w) => w, None => saved.width },
        size.1 == match cli_height { Some(h) => h, None => saved.height },
{
    let w = match cli_width {
        Some(w) => w,
        None => saved.width,
    };
    let h = match cli_height {
        Some(h) => h,
        None => saved.height,
    };
    (w, h)
}

/// Where the document shown comes from.
pub enum DocumentOrigin {
    /// A file, with the last component of its absolute path if it has one.
    File { file_name: Option<String> },
    /// Standard input.
    Stdin,
}

/// The document's title: the file's name, `mdview` for a file path
/// without a final name, or `stdin`.
pub fn document_title(origin: &DocumentOrigin) -> (title: String)
    ensures
        title@ == match origin {
            DocumentOrigin::File { file_name: Some(n) } => n@,
            DocumentOrigin::File { file_name: None } => "mdview"@,
            DocumentOrigin::Stdin => "stdin"@,
        },
{
    match origin {
        DocumentOrigin::File { file_name: Some(n) } => n.clone(),
        DocumentOrigin::File { file_name: None } => String::from_str("mdview"),
        DocumentOrigin::Stdin => String::from_str("stdin"),
    }
}

/// The window title for a document title: `mdview — <title>`.
pub fn window_title(title: &str) -> (t: String)
    ensures
        t@ == "mdview \u{2014} "@ + title@,
{
    let mut t = String::from_str("mdview \u{2014} ");
    t.append(title);
    t
}

/// The message logged when the theme changes:
/// `mdview: theme → <name> (dark|light)`.
pub fn theme_change_message(theme: &PageTheme, dark: bool) -> (m: String)
    ensures
        m@ == "mdview: theme \u{2192} "@ + theme.name@ + " ("@
            + (if dark { "dark"@ } else { "light"@ }) + ")"@,
{
    let mut m = String::from_str("mdview: theme \u{2192} ");
    m.append(theme.name);
    m.append(" (");
    m.append(if dark { "dark" } else { "light" });
    m.append(")");
    m
}

} // verus!
