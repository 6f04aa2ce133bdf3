//! Colour themes: five light and five dark palettes, and the CSS each one
//! contributes to a rendered page.
use vstd::prelude::*;

verus! {

/// Number of themes in each of the light and dark families.
pub const THEME_COUNT: usize = 5;

/// A colour palette for the rendered page, plus the syntax-highlighting
/// theme that goes with it. Colours are CSS colour values.
#[derive(Clone, Copy, Debug, PartialEq, Eq)]
pub struct PageTheme {
    /// Display name of the theme.
    pub name: &'static str,
    /// Name of the syntax-highlighting theme used for code blocks.
    pub syntect_theme: &'static str,
    /// Page background.
    pub bg: &'static str,
    /// Body text colour.
    pub text: &'static str,
    /// Link colour.
    pub accent: &'static str,
    /// Underline of level-1 and level-2 headings.
    pub heading_border: &'static str,
    /// Colour of level-6 headings, quotes and struck-through text.
    pub muted: &'static str,
    /// Background of inline code.
    pub code_bg: &'static str,
    /// Background of code blocks.
    pub pre_bg: &'static str,
    /// Border of code blocks.
    pub pre_border: &'static str,
    /// Background of block quotes.
    pub blockquote_bg: &'static str,
    /// Left rule of block quotes.
    pub blockquote_border: &'static str,
    /// Table cell borders.
    pub table_border: &'static str,
    /// Background of table header cells.
    pub table_header_bg: &'static str,
    /// Background of even table rows.
    pub table_stripe: &'static str,
    /// Colour of horizontal rules.
    pub hr: &'static str,
}

/// The light theme in slot `slot` (slots beyond the last give the last).
pub open spec fn light_theme(slot: int) -> PageTheme {
    if slot == 0 {
        PageTheme {
            name: "Default",
            syntect_theme: "InspiredGitHub",
            bg: "#fff",
            text: "#1a1a1a",
            accent: "#0366d6",
            heading_border: "#e0e0e0",
            muted: "#555",
            code_bg: "#f0f0f0",
            pre_bg: "#f6f6f6",
            pre_border: "#e0e0e0",
            blockquote_bg: "#fafafa",
            blockquote_border: "#ddd",
            table_border: "#ddd",
            table_header_bg: "#f6f6f6",
            table_stripe: "#fafafa",
            hr: "#e0e0e0",
        }
    } else if slot == 1 {
        PageTheme {
            name: "Warm",
            syntect_theme: "Solarized (light)",
            bg: "#faf8f5",
            text: "#2c2416",
            accent: "#8b5a00",
            heading_border: "#e8e0d0",
            muted: "#6b5b47",
            code_bg: "#f0ebe0",
            pre_bg: "#f5f0e8",
            pre_border: "#e0d8c8",
            blockquote_bg: "#f5f0e8",
            blockquote_border: "#d0c4a8",
            table_border: "#ddd0bc",
            table_header_bg: "#f0ebe0",
            table_stripe: "#f5f0e8",
            hr: "#e0d8c8",
        }
    } else if slot == 2 {
        PageTheme {
            name: "Cool",
            syntect_theme: "base16-ocean.light",
            bg: "#f5f7fa",
            text: "#1a2332",
            accent: "#2563eb",
            heading_border: "#d8dfe8",
            muted: "#4a5568",
            code_bg: "#e8ecf2",
            pre_bg: "#edf0f5",
            pre_border: "#d0d8e4",
            blockquote_bg: "#edf0f5",
            blockquote_border: "#b0bcd0",
            table_border: "#c8d0dc",
            table_header_bg: "#e8ecf2",
            table_stripe: "#edf0f5",
            hr: "#d0d8e4",
        }
    } else if slot == 3 {
        PageTheme {
            name: "Solarized",
            syntect_theme: "Solarized (light)",
            bg: "#fdf6e3",
            text: "#586e75",
            accent: "#268bd2",
            heading_border: "#eee8d5",
            muted: "#93a1a1",
            code_bg: "#eee8d5",
            pre_bg: "#eee8d5",
            pre_border: "#ddd6c1",
            blockquote_bg: "#eee8d5",
            blockquote_border: "#93a1a1",
            table_border: "#ddd6c1",
            table_header_bg: "#eee8d5",
            table_stripe: "#f5efdc",
            hr: "#ddd6c1",
        }
    } else {
        PageTheme {
            name: "Paper",
            syntect_theme: "InspiredGitHub",
            bg: "#f9f5ed",
            text: "#333",
            accent: "#7c4d28",
            heading_border: "#e0d8c8",
            muted: "#666",
            code_bg: "#efe9de",
            pre_bg: "#f3ede2",
            pre_border: "#ddd5c4",
            blockquote_bg: "#f3ede2",
            blockquote_border: "#c8b898",
            table_border: "#d8d0c0",
            table_header_bg: "#efe9de",
            table_stripe: "#f3ede2",
            hr: "#ddd5c4",
        }
    }
}

/// The dark theme in slot `slot` (slots beyond the last give the last).
pub open spec fn dark_theme(slot: int) -> PageTheme {
    if slot == 0 {
        PageTheme {
            name: "Default",
            syntect_theme: "base16-ocean.dark",
            bg: "#1e1e1e",
            text: "#d4d4d4",
            accent: "#58a6ff",
            heading_border: "#333",
            muted: "#999",
            code_bg: "#2d2d2d",
            pre_bg: "#252526",
            pre_border: "#333",
            blockquote_bg: "#252526",
            blockquote_border: "#444",
            table_border: "#333",
            table_header_bg: "#2d2d2d",
            table_stripe: "#252526",
            hr: "#333",
        }
    } else if slot == 1 {
        PageTheme {
            name: "Mocha",
            syntect_theme: "base16-mocha.dark",
            bg: "#1e1d2f",
            text: "#cdd6f4",
            accent: "#f5c2e7",
            heading_border: "#313244",
            muted: "#a6adc8",
            code_bg: "#28273d",
            pre_bg: "#252438",
            pre_border: "#313244",
            blockquote_bg: "#252438",
            blockquote_border: "#585b70",
            table_border: "#313244",
            table_header_bg: "#28273d",
            table_stripe: "#252438",
            hr: "#313244",
        }
    } else if slot == 2 {
        PageTheme {
            name: "Ocean",
            syntect_theme: "base16-ocean.dark",
            bg: "#2b303b",
            text: "#c0c5ce",
            accent: "#8fa1b3",
            heading_border: "#3b4252",
            muted: "#8b929e",
            code_bg: "#343d4a",
            pre_bg: "#313845",
            pre_border: "#3b4252",
            blockquote_bg: "#313845",
            blockquote_border: "#4c566a",
            table_border: "#3b4252",
            table_header_bg: "#343d4a",
            table_stripe: "#313845",
            hr: "#3b4252",
        }
    } else if slot == 3 {
        PageTheme {
            name: "Eighties",
            syntect_theme: "base16-eighties.dark",
            bg: "#2d2d2d",
            text: "#d3d0c8",
            accent: "#f99157",
            heading_border: "#3b3b3b",
            muted: "#a09f93",
            code_bg: "#383838",
            pre_bg: "#353535",
            pre_border: "#3b3b3b",
            blockquote_bg: "#353535",
            blockquote_border: "#555",
            table_border: "#3b3b3b",
            table_header_bg: "#383838",
            table_stripe: "#353535",
            hr: "#3b3b3b",
        }
    } else {
        PageTheme {
            name: "Solarized",
            syntect_theme: "Solarized (dark)",
            bg: "#002b36",
            text: "#839496",
            accent: "#268bd2",
            heading_border: "#073642",
            muted: "#657b83",
            code_bg: "#073642",
            pre_bg: "#073642",
            pre_border: "#0a4050",
            blockquote_bg: "#073642",
            blockquote_border: "#586e75",
            table_border: "#073642",
            table_header_bg: "#073642",
            table_stripe: "#06313b",
            hr: "#073642",
        }
    }
}

/// The theme of the given family in the given slot.
pub open spec fn theme_table(dark: bool, slot: int) -> PageTheme {
    if dark {
        dark_theme(slot)
    } else {
        light_theme(slot)
    }
}

fn light_theme_entry(slot: usize) -> (t: PageTheme)
    requires
        slot < THEME_COUNT,
    ensures
        t == light_theme(slot as int),
{
    if slot == 0 {
        PageTheme {
            name: "Default",
            syntect_theme: "InspiredGitHub",
            bg: "#fff",
            text: "#1a1a1a",
            accent: "#0366d6",
            heading_border: "#e0e0e0",
            muted: "#555",
            code_bg: "#f0f0f0",
            pre_bg: "#f6f6f6",
            pre_border: "#e0e0e0",
            blockquote_bg: "#fafafa",
            blockquote_border: "#ddd",
            table_border: "#ddd",
            table_header_bg: "#f6f6f6",
            table_stripe: "#fafafa",
            hr: "#e0e0e0",
        }
    } else if slot == 1 {
        PageTheme {
            name: "Warm",
            syntect_theme: "Solarized (light)",
            bg: "#faf8f5",
            text: "#2c2416",
            accent: "#8b5a00",
            heading_border: "#e8e0d0",
            muted: "#6b5b47",
            code_bg: "#f0ebe0",
            pre_bg: "#f5f0e8",
            pre_border: "#e0d8c8",
            blockquote_bg: "#f5f0e8",
            blockquote_border: "#d0c4a8",
            table_border: "#ddd0bc",
            table_header_bg: "#f0ebe0",
            table_stripe: "#f5f0e8",
            hr: "#e0d8c8",
        }
    } else if slot == 2 {
        PageTheme {
            name: "Cool",
            syntect_theme: "base16-ocean.light",
            bg: "#f5f7fa",
            text: "#1a2332",
            accent: "#2563eb",
            heading_border: "#d8dfe8",
            muted: "#4a5568",
            code_bg: "#e8ecf2",
            pre_bg: "#edf0f5",
            pre_border: "#d0d8e4",
            blockquote_bg: "#edf0f5",
            blockquote_border: "#b0bcd0",
            table_border: "#c8d0dc",
            table_header_bg: "#e8ecf2",
            table_stripe: "#edf0f5",
            hr: "#d0d8e4",
        }
    } else if slot == 3 {
        PageTheme {
            name: "Solarized",
            syntect_theme: "Solarized (light)",
            bg: "#fdf6e3",
            text: "#586e75",
            accent: "#268bd2",
            heading_border: "#eee8d5",
            muted: "#93a1a1",
            code_bg: "#eee8d5",
            pre_bg: "#eee8d5",
            pre_border: "#ddd6c1",
            blockquote_bg: "#eee8d5",
            blockquote_border: "#93a1a1",
            table_border: "#ddd6c1",
            table_header_bg: "#eee8d5",
            table_stripe: "#f5efdc",
            hr: "#ddd6c1",
        }
    } else {
        PageTheme {
            name: "Paper",
            syntect_theme: "InspiredGitHub",
            bg: "#f9f5ed",
            text: "#333",
            accent: "#7c4d28",
            heading_border: "#e0d8c8",
            muted: "#666",
            code_bg: "#efe9de",
            pre_bg: "#f3ede2",
            pre_border: "#ddd5c4",
            blockquote_bg: "#f3ede2",
            blockquote_border: "#c8b898",
            table_border: "#d8d0c0",
            table_header_bg: "#efe9de",
            table_stripe: "#f3ede2",
            hr: "#ddd5c4",
        }
    }
}

fn dark_theme_entry(slot: usize) -> (t: PageTheme)
    requires
        slot < THEME_COUNT,
    ensures
        t == dark_theme(slot as int),
{
    if slot == 0 {
        PageTheme {
            name: "Default",
            syntect_theme: "base16-ocean.dark",
            bg: "#1e1e1e",
            text: "#d4d4d4",
            accent: "#58a6ff",
            heading_border: "#333",
            muted: "#999",
            code_bg: "#2d2d2d",
            pre_bg: "#252526",
            pre_border: "#333",
            blockquote_bg: "#252526",
            blockquote_border: "#444",
            table_border: "#333",
            table_header_bg: "#2d2d2d",
            table_stripe: "#252526",
            hr: "#333",
        }
    } else if slot == 1 {
        PageTheme {
            name: "Mocha",
            syntect_theme: "base16-mocha.dark",
            bg: "#1e1d2f",
            text: "#cdd6f4",
            accent: "#f5c2e7",
            heading_border: "#313244",
            muted: "#a6adc8",
            code_bg: "#28273d",
            pre_bg: "#252438",
            pre_border: "#313244",
            blockquote_bg: "#252438",
            blockquote_border: "#585b70",
            table_border: "#313244",
            table_header_bg: "#28273d",
            table_stripe: "#252438",
            hr: "#313244",
        }
    } else if slot == 2 {
        PageTheme {
            name: "Ocean",
            syntect_theme: "base16-ocean.dark",
            bg: "#2b303b",
            text: "#c0c5ce",
            accent: "#8fa1b3",
            heading_border: "#3b4252",
            muted: "#8b929e",
            code_bg: "#343d4a",
            pre_bg: "#313845",
            pre_border: "#3b4252",
            blockquote_bg: "#313845",
            blockquote_border: "#4c566a",
            table_border: "#3b4252",
            table_header_bg: "#343d4a",
            table_stripe: "#313845",
            hr: "#3b4252",
        }
    } else if slot == 3 {
        PageTheme {
            name: "Eighties",
            syntect_theme: "base16-eighties.dark",
            bg: "#2d2d2d",
            text: "#d3d0c8",
            accent: "#f99157",
            heading_border: "#3b3b3b",
            muted: "#a09f93",
            code_bg: "#383838",
            pre_bg: "#353535",
            pre_border: "#3b3b3b",
            blockquote_bg: "#353535",
            blockquote_border: "#555",
            table_border: "#3b3b3b",
            table_header_bg: "#383838",
            table_stripe: "#353535",
            hr: "#3b3b3b",
        }
    } else {
        PageTheme {
            name: "Solarized",
            syntect_theme: "Solarized (dark)",
            bg: "#002b36",
            text: "#839496",
            accent: "#268bd2",
            heading_border: "#073642",
            muted: "#657b83",
            code_bg: "#073642",
            pre_bg: "#073642",
            pre_border: "#0a4050",
            blockquote_bg: "#073642",
            blockquote_border: "#586e75",
            table_border: "#073642",
            table_header_bg: "#073642",
            table_stripe: "#06313b",
            hr: "#073642",
        }
    }
}

/// The theme for `index` in the dark or light family; the index wraps
/// around the number of themes.
pub fn get_theme(dark: bool, index: usize) -> (t: PageTheme)
    ensures
        t == theme_table(dark, (index % THEME_COUNT) as int),
{
    let slot = index % THEME_COUNT;
    if dark {
        dark_theme_entry(slot)
    } else {
        light_theme_entry(slot)
    }
}


/// The theme-dependent part of the page's style sheet: the template below
/// with the theme's colours filled in.
pub open spec fn theme_css_text(t: PageTheme) -> Seq<char> {
    "\nbody {\n    color: "@ + t.text@
        + ";\n    background: "@ + t.bg@
        + ";\n}\nh1, h2 { border-bottom-color: "@ + t.heading_border@
        + "; }\nh6 { color: "@ + t.muted@
        + "; }\na { color: "@ + t.accent@
        + "; }\ncode { background: "@ + t.code_bg@
        + "; }\npre { background: "@ + t.pre_bg@
        + "; border-color: "@ + t.pre_border@
        + "; }\nblockquote { border-left-color: "@ + t.blockquote_border@
        + "; color: "@ + t.muted@
        + "; background: "@ + t.blockquote_bg@
        + "; }\nth, td { border-color: "@ + t.table_border@
        + "; }\nth { background: "@ + t.table_header_bg@
        + "; }\ntr:nth-child(even) { background: "@ + t.table_stripe@
        + "; }\nhr { border-top-color: "@ + t.hr@
        + "; }\ndel { color: "@ + t.muted@
        + "; }\n"@
}

/// The CSS rules that colour the page with theme `t`.
pub fn theme_css(t: &PageTheme) -> (css: String)
    ensures
        css@ == theme_css_text(*t),
{
    let mut css = String::from_str("\nbody {\n    color: ");
    css.append(t.text);
    css.append(";\n    background: ");
    css.append(t.bg);
    css.append(";\n}\nh1, h2 { border-bottom-color: ");
    css.append(t.heading_border);
    css.append("; }\nh6 { color: ");
    css.append(t.muted);
    css.append("; }\na { color: ");
    css.append(t.accent);
    css.append("; }\ncode { background: ");
    css.append(t.code_bg);
    css.append("; }\npre { background: ");
    css.append(t.pre_bg);
    css.append("; border-color: ");
    css.append(t.pre_border);
    css.append("; }\nblockquote { border-left-color: ");
    css.append(t.blockquote_border);
    css.append("; color: ");
    css.append(t.muted);
    css.append("; background: ");
    css.append(t.blockquote_bg);
    css.append("; }\nth, td { border-color: ");
    css.append(t.table_border);
    css.append("; }\nth { background: ");
    css.append(t.table_header_bg);
    css.append("; }\ntr:nth-child(even) { background: ");
    css.append(t.table_stripe);
    css.append("; }\nhr { border-top-color: ");
    css.append(t.hr);
    css.append("; }\ndel { color: ");
    css.append(t.muted);
    css.append("; }\n");
    css
}

/// Each family holds `THEME_COUNT` different themes: cycling through the
/// slots shows a differently named theme at every step.
pub proof fn lemma_themes_distinct(dark: bool, i: int, j: int)
    requires
        0 <= i < THEME_COUNT,
        0 <= j < THEME_COUNT,
        i != j,
    ensures
        theme_table(dark, i).name@ != theme_table(dark, j).name@,
{
    reveal_strlit("Default");
    reveal_strlit("Warm");
    reveal_strlit("Cool");
    reveal_strlit("Solarized");
    reveal_strlit("Paper");
    reveal_strlit("Mocha");
    reveal_strlit("Ocean");
    reveal_strlit("Eighties");
    let first = |k: int| theme_table(dark, k).name@[0];
    if dark {
        assert(first(0) == 'D' && first(1) == 'M' && first(2) == 'O' && first(3) == 'E' && first(4) == 'S');
    } else {
        assert(first(0) == 'D' && first(1) == 'W' && first(2) == 'C' && first(3) == 'S' && first(4) == 'P');
    }
    assert(first(i) != first(j));
}

} // verus!
