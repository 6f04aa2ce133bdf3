//! Turning markdown into the complete HTML page the viewer shows.
use vstd::prelude::*;
use crate::theme::{PageTheme, THEME_COUNT, get_theme, theme_css, theme_css_text, theme_table};

verus! {

/// The HTML body that comrak renders for `markdown` with fenced code blocks
/// highlighted by syntect in the theme named `syntect_theme`, and with each
/// listed comrak extension on or off as its flag says (strikethrough, table,
/// autolink, tasklist, `math_dollars` and `math_code`); every other option
/// keeps comrak's default, under which raw HTML is left out.
pub uninterp spec fn comrak_gfm_html(
    markdown: Seq<char>,
    syntect_theme: Seq<char>,
    strikethrough: bool,
    table: bool,
    autolink: bool,
    tasklist: bool,
    math_dollars: bool,
    math_code: bool,
) -> Seq<char>;

/// The comrak extensions that decide which Markdown features a page renders.
pub struct MarkdownExtensions {
    /// `~~struck~~` text.
    pub strikethrough: bool,
    /// GitHub-style pipe tables.
    pub table: bool,
    /// Bare URLs and e-mail addresses become links.
    pub autolink: bool,
    /// `- [ ]` / `- [x]` task list items.
    pub tasklist: bool,
    /// `$..$` and `$$..$$` math.
    pub math_dollars: bool,
    /// `` $`..`$ `` and fenced `math` code as math.
    pub math_code: bool,
}

/// Whether `ext` is what the viewer renders with: every extension on.
pub open spec fn is_viewer_extensions(ext: MarkdownExtensions) -> bool {
    &&& ext.strikethrough
    &&& ext.table
    &&& ext.autolink
    &&& ext.tasklist
    &&& ext.math_dollars
    &&& ext.math_code
}

/// The options the viewer renders with: strikethrough, tables, autolinks,
/// task lists and both math syntaxes.
pub fn viewer_extensions() -> (ext: MarkdownExtensions)
    ensures
        is_viewer_extensions(ext),
{
    MarkdownExtensions {
        strikethrough: true,
        table: true,
        autolink: true,
        tasklist: true,
        math_dollars: true,
        math_code: true,
    }
}

/// The names of the themes that syntect bundles in its default theme set.
pub open spec fn is_bundled_syntect_theme(name: Seq<char>) -> bool {
    ||| name == "base16-ocean.dark"@
    ||| name == "base16-eighties.dark"@
    ||| name == "base16-mocha.dark"@
    ||| name == "base16-ocean.light"@
    ||| name == "InspiredGitHub"@
    ||| name == "Solarized (dark)"@
    ||| name == "Solarized (light)"@
}

/// Renders `markdown` to an HTML fragment with comrak
/// (`markdown_to_html_with_plugins`), highlighting code blocks with comrak's
/// syntect adapter; each field of `ext` is copied into the comrak option of
/// the same name; the rest of comrak's options keep their defaults, so raw
/// HTML in the source is left out of the result.
///
/// Trusted: the result is named `comrak_gfm_html` of the markdown, the theme
/// name and the six flags; the rendering itself is not stated. The adapter
/// indexes syntect's default theme set by name and panics on a name it does
/// not hold, so the theme must be one of the bundled ones.
#[verifier::external_body]
fn render_markdown_body(markdown: &str, syntect_theme: &str, ext: &MarkdownExtensions) -> (html: String)
    requires
        is_bundled_syntect_theme(syntect_theme@),
    ensures
        html@ == comrak_gfm_html(
            markdown@,
            syntect_theme@,
            ext.strikethrough,
            ext.table,
            ext.autolink,
            ext.tasklist,
            ext.math_dollars,
            ext.math_code,
        ),
{
    let mut options = comrak::Options::default();
    options.extension.strikethrough = ext.strikethrough;
    options.extension.table = ext.table;
    options.extension.autolink = ext.autolink;
    options.extension.tasklist = ext.tasklist;
    options.extension.math_dollars = ext.math_dollars;
    options.extension.math_code = ext.math_code;
    let adapter = comrak::plugins::syntect::SyntectAdapterBuilder::new().theme(syntect_theme).build();
    let mut plugins = comrak::options::Plugins::default();
    plugins.render.codefence_syntax_highlighter = Some(&adapter);
    comrak::markdown_to_html_with_plugins(markdown, &options, &plugins)
}

/// Every theme of both families highlights code with a bundled syntect theme.
pub proof fn lemma_themes_use_bundled_syntect_themes(dark: bool, slot: int)
    ensures
        is_bundled_syntect_theme(theme_table(dark, slot).syntect_theme@),
{
}

/// The style sheets and scripts a page embeds besides the theme colours.
pub struct PageAssets {
    /// The base style sheet (layout and typography).
    pub base_css: String,
    /// KaTeX's style sheet, with its fonts inlined.
    pub katex_css: String,
    /// The KaTeX library.
    pub katex_js: String,
}

/// The script that typesets the math elements of the page with KaTeX once
/// the document has loaded.
pub open spec fn katex_bootstrap_text() -> Seq<char> {
    r#"
(function() {
  function render() {
    document.querySelectorAll("[data-math-style]").forEach(function(el) {
      if (el.dataset.mdviewRendered) return;
      var display = el.getAttribute("data-math-style") === "display";
      var tex = el.textContent;
      if (display && tex.startsWith("$$") && tex.endsWith("$$")) tex = tex.slice(2, -2);
      else if (tex.startsWith("$") && tex.endsWith("$")) tex = tex.slice(1, -1);
      try {
        katex.render(tex.trim(), el, { displayMode: display, throwOnError: false });
        el.dataset.mdviewRendered = "1";
      } catch (e) { console.error("KaTeX:", e); }
    });
  }
  if (document.readyState === "loading") {
    document.addEventListener("DOMContentLoaded", render);
  } else {
    render();
  }
})();
"#@
}

/// The KaTeX start-up script.
pub fn katex_bootstrap_js() -> (js: &'static str)
    ensures
        js@ == katex_bootstrap_text(),
{
    r#"
(function() {
  function render() {
    document.querySelectorAll("[data-math-style]").forEach(function(el) {
      if (el.dataset.mdviewRendered) return;
      var display = el.getAttribute("data-math-style") === "display";
      var tex = el.textContent;
      if (display && tex.startsWith("$$") && tex.endsWith("$$")) tex = tex.slice(2, -2);
      else if (tex.startsWith("$") && tex.endsWith("$")) tex = tex.slice(1, -1);
      try {
        katex.render(tex.trim(), el, { displayMode: display, throwOnError: false });
        el.dataset.mdviewRendered = "1";
      } catch (e) { console.error("KaTeX:", e); }
    });
  }
  if (document.readyState === "loading") {
    document.addEventListener("DOMContentLoaded", render);
  } else {
    render();
  }
})();
"#
}

/// The complete page around a rendered body.
pub open spec fn html_document_text(body: Seq<char>, colors: Seq<char>, base_css: Seq<char>, katex_css: Seq<char>, katex_js: Seq<char>) -> Seq<char> {
    "<!DOCTYPE html>\n<html>\n<head>\n<meta charset=\"utf-8\">\n<style>\n"@
        + base_css + "\n"@ + colors + "\n"@ + katex_css
        + "\n</style>\n</head>\n<body>\n"@ + body
        + "\n<script>"@ + katex_js
        + "</script>\n<script>"@ + katex_bootstrap_text()
        + "</script>\n</body>\n</html>"@
}

/// Wraps a rendered HTML body into the full page: the style sheets (base,
/// theme colours, KaTeX) in the head, then the body and the KaTeX scripts.
pub fn html_document(body: &str, colors: &str, assets: &PageAssets) -> (doc: String)
    ensures
        doc@ == html_document_text(body@, colors@, assets.base_css@, assets.katex_css@, assets.katex_js@),
{
    let mut doc = String::from_str("<!DOCTYPE html>\n<html>\n<head>\n<meta charset=\"utf-8\">\n<style>\n");
    doc.append(assets.base_css.as_str());
    doc.append("\n");
    doc.append(colors);
    doc.append("\n");
    doc.append(assets.katex_css.as_str());
    doc.append("\n</style>\n</head>\n<body>\n");
    doc.append(body);
    doc.append("\n<script>");
    doc.append(assets.katex_js.as_str());
    doc.append("</script>\n<script>");
    doc.append(katex_bootstrap_js());
    doc.append("</script>\n</body>\n</html>");
    doc
}

/// The page for `markdown` coloured and highlighted with `theme`, its body
/// rendered with every extension of `MarkdownExtensions` on.
pub open spec fn page_for(markdown: Seq<char>, theme: PageTheme, assets: &PageAssets) -> Seq<char> {
    html_document_text(
        comrak_gfm_html(markdown, theme.syntect_theme@, true, true, true, true, true, true),
        theme_css_text(theme),
        assets.base_css@,
        assets.katex_css@,
        assets.katex_js@,
    )
}

/// The page shows the rendered markdown in a document whose style element
/// holds, in this order and unchanged, the base style sheet, the theme's
/// colours and KaTeX's style sheet, and whose body ends with the KaTeX
/// library and its start-up script.
pub proof fn lemma_page_layout(markdown: Seq<char>, theme: PageTheme, assets: &PageAssets)
    ensures
        page_for(markdown, theme, assets) ==
            "<!DOCTYPE html>\n<html>\n<head>\n<meta charset=\"utf-8\">\n<style>\n"@
            + assets.base_css@ + "\n"@ + theme_css_text(theme) + "\n"@ + assets.katex_css@
            + "\n</style>\n</head>\n<body>\n"@
            + comrak_gfm_html(markdown, theme.syntect_theme@, true, true, true, true, true, true)
            + "\n<script>"@ + assets.katex_js@ + "</script>\n<script>"@ + katex_bootstrap_text()
            + "</script>\n</body>\n</html>"@,
{
}

/// Renders `markdown` into the complete HTML page, coloured with theme
/// `theme_index` (wrapping around) of the dark or light family and with
/// code blocks highlighted in that theme's syntax colours; the body is
/// rendered with the viewer's extensions (`viewer_extensions`).
pub fn md_to_html_doc(markdown: &str, dark: bool, theme_index: usize, assets: &PageAssets) -> (doc: String)
    ensures
        doc@ == page_for(markdown@, theme_table(dark, (theme_index % THEME_COUNT) as int), assets),
        doc@ == html_document_text(
            comrak_gfm_html(
                markdown@,
                theme_table(dark, (theme_index % THEME_COUNT) as int).syntect_theme@,
                true,
                true,
                true,
                true,
                true,
                true,
            ),
            theme_css_text(theme_table(dark, (theme_index % THEME_COUNT) as int)),
            assets.base_css@,
            assets.katex_css@,
            assets.katex_js@,
        ),
{
    let theme = get_theme(dark, theme_index);
    proof {
        lemma_themes_use_bundled_syntect_themes(dark, (theme_index % THEME_COUNT) as int);
    }
    let ext = viewer_extensions();
    let body = render_markdown_body(markdown, theme.syntect_theme, &ext);
    let colors = theme_css(&theme);
    html_document(body.as_str(), colors.as_str(), assets)
}

/// The base URI a page is loaded with, so that relative links and images
/// resolve against the document's directory: `file://<dir>/`.
pub fn base_uri(base_dir: Option<&str>) -> (uri: Option<String>)
    ensures
        match base_dir {
            None => uri is None,
            Some(d) => uri is Some && uri->0@ == "file://"@ + d@ + "/"@,
        },
{
    match base_dir {
        None => None,
        Some(d) => {
            let mut uri = String::from_str("file://");
            uri.append(d);
            uri.append("/");
            Some(uri)
        },
    }
}

} // verus!
