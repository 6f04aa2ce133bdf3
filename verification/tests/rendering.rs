use mdview::base64::base64_encode;
use mdview::document::{base_uri, html_document, katex_bootstrap_js, md_to_html_doc, viewer_extensions, PageAssets};
use mdview::fonts::{inline_woff2_fonts, woff2_font_paths, FontFile, InlineError};
use mdview::theme::{get_theme, theme_css, PageTheme};

fn assets() -> PageAssets {
    PageAssets {
        base_css: "body{margin:0}".to_string(),
        katex_css: ".katex{}".to_string(),
        katex_js: "var katex;".to_string(),
    }
}

fn expected_css(t: &PageTheme) -> String {
    format!(
        r#"
body {{
    color: {text};
    background: {bg};
}}
h1, h2 {{ border-bottom-color: {heading_border}; }}
h6 {{ color: {muted}; }}
a {{ color: {accent}; }}
code {{ background: {code_bg}; }}
pre {{ background: {pre_bg}; border-color: {pre_border}; }}
blockquote {{ border-left-color: {blockquote_border}; color: {muted}; background: {blockquote_bg}; }}
th, td {{ border-color: {table_border}; }}
th {{ background: {table_header_bg}; }}
tr:nth-child(even) {{ background: {table_stripe}; }}
hr {{ border-top-color: {hr}; }}
del {{ color: {muted}; }}
"#,
        bg = t.bg,
        text = t.text,
        accent = t.accent,
        heading_border = t.heading_border,
        muted = t.muted,
        code_bg = t.code_bg,
        pre_bg = t.pre_bg,
        pre_border = t.pre_border,
        blockquote_bg = t.blockquote_bg,
        blockquote_border = t.blockquote_border,
        table_border = t.table_border,
        table_header_bg = t.table_header_bg,
        table_stripe = t.table_stripe,
        hr = t.hr,
    )
}

#[test]
fn themes_are_picked_by_family_and_slot() {
    assert_eq!(get_theme(false, 0).name, "Default");
    assert_eq!(get_theme(false, 0).bg, "#fff");
    assert_eq!(get_theme(false, 4).name, "Paper");
    assert_eq!(get_theme(true, 1).name, "Mocha");
    assert_eq!(get_theme(true, 6).name, "Mocha");
    assert_eq!(get_theme(true, 4).syntect_theme, "Solarized (dark)");
    let light: Vec<&str> = (0..5).map(|i| get_theme(false, i).name).collect();
    assert_eq!(light, vec!["Default", "Warm", "Cool", "Solarized", "Paper"]);
    let dark: Vec<&str> = (0..5).map(|i| get_theme(true, i).name).collect();
    assert_eq!(dark, vec!["Default", "Mocha", "Ocean", "Eighties", "Solarized"]);
}

#[test]
fn theme_css_fills_the_template() {
    for dark in [false, true] {
        for i in 0..5 {
            let t = get_theme(dark, i);
            assert_eq!(theme_css(&t), expected_css(&t));
        }
    }
    let css = theme_css(&get_theme(true, 0));
    assert!(css.starts_with("\nbody {\n    color: #d4d4d4;\n    background: #1e1e1e;\n}\n"));
}

#[test]
fn page_wraps_body_styles_and_scripts() {
    let a = assets();
    let doc = html_document("<p>x</p>", "C", &a);
    let expected = format!(
        "<!DOCTYPE html>\n<html>\n<head>\n<meta charset=\"utf-8\">\n<style>\nbody{{margin:0}}\nC\n.katex{{}}\n</style>\n</head>\n<body>\n<p>x</p>\n<script>var katex;</script>\n<script>{}</script>\n</body>\n</html>",
        katex_bootstrap_js()
    );
    assert_eq!(doc, expected);
    assert!(katex_bootstrap_js().contains("katex.render(tex.trim(), el"));
}

#[test]
fn markdown_is_rendered_into_the_page() {
    let a = assets();
    let doc = md_to_html_doc("# Title\n\n~~gone~~ and $x$\n", false, 0, &a);
    assert!(doc.starts_with("<!DOCTYPE html>\n<html>\n<head>\n<meta charset=\"utf-8\">\n<style>\nbody{margin:0}\n"));
    assert!(doc.contains("<h1>Title</h1>"));
    assert!(doc.contains("<del>gone</del>"));
    assert!(doc.contains("data-math-style=\"inline\""));
    assert!(doc.contains(&theme_css(&get_theme(false, 0))));
    assert!(doc.ends_with("</script>\n</body>\n</html>"));
}

#[test]
fn raw_html_and_tables_in_markdown() {
    let a = assets();
    let doc = md_to_html_doc("<script>alert(1)</script>\n\n| a | b |\n|---|---|\n| 1 | 2 |\n\n- [x] done\n", true, 7, &a);
    assert!(!doc.contains("<script>alert(1)</script>"));
    assert!(doc.contains("<table>"));
    assert!(doc.contains("checkbox"));
    assert!(doc.contains(&theme_css(&get_theme(true, 2))));
}

#[test]
fn the_viewer_turns_every_extension_on() {
    let e = viewer_extensions();
    assert!(e.strikethrough && e.table && e.autolink && e.tasklist && e.math_dollars && e.math_code);
}

#[test]
fn bare_urls_become_links() {
    let a = assets();
    let doc = md_to_html_doc("see https://example.org now\n", false, 0, &a);
    assert!(doc.contains("<a href=\"https://example.org\">https://example.org</a>"));
}

#[test]
fn code_blocks_use_the_theme_colours() {
    let a = assets();
    let light = md_to_html_doc("```rust\nfn main() {}\n```\n", false, 0, &a);
    let dark = md_to_html_doc("```rust\nfn main() {}\n```\n", true, 0, &a);
    assert!(light.contains("<pre style=\"background-color:#ffffff;\""));
    assert!(dark.contains("<pre style=\"background-color:#2b303b;\""));
}

#[test]
fn base_uri_points_at_the_directory() {
    assert_eq!(base_uri(Some("/home/u/docs")), Some("file:///home/u/docs/".to_string()));
    assert_eq!(base_uri(None), None);
}

#[test]
fn base64_matches_rfc4648_vectors() {
    let cases = [
        ("", ""),
        ("f", "Zg=="),
        ("fo", "Zm8="),
        ("foo", "Zm9v"),
        ("foob", "Zm9vYg=="),
        ("fooba", "Zm9vYmE="),
        ("foobar", "Zm9vYmFy"),
    ];
    for (input, out) in cases {
        assert_eq!(base64_encode(input.as_bytes()), out);
    }
    assert_eq!(base64_encode(&[0xff, 0xfe, 0x00, 0x3f]), "//4APw==");
}

fn font(path: &str, bytes: &[u8]) -> FontFile {
    FontFile { path: path.to_string(), bytes: bytes.to_vec() }
}

#[test]
fn woff2_fonts_are_inlined() {
    let css = "@font-face{src:url(fonts/A.woff2) format(\"woff2\"),url(fonts/A.woff) format(\"woff\")}x{}";
    let fonts = vec![font("fonts/A.woff2", b"foo")];
    let out = inline_woff2_fonts(css, &fonts).unwrap();
    assert_eq!(
        out,
        "@font-face{src:url(data:font/woff2;base64,Zm9v) format(\"woff2\"),url(fonts/A.woff) format(\"woff\")}x{}"
    );
    assert_eq!(woff2_font_paths(css).unwrap(), vec!["fonts/A.woff2".to_string()]);
}

#[test]
fn css_without_fonts_is_unchanged() {
    assert_eq!(inline_woff2_fonts("a{b:c}", &Vec::new()).unwrap(), "a{b:c}");
    assert_eq!(woff2_font_paths("a{b:c}").unwrap(), Vec::<String>::new());
}

#[test]
fn unclosed_font_url_is_malformed() {
    assert_eq!(inline_woff2_fonts("x url(fonts/A.woff2", &Vec::new()), Err(InlineError::MalformedUrl));
    assert_eq!(woff2_font_paths("x url(fonts/A.woff2"), Err(InlineError::MalformedUrl));
}

#[test]
fn unsupplied_woff2_font_is_missing() {
    let fonts = vec![font("fonts/B.woff2", b"x")];
    assert_eq!(inline_woff2_fonts("url(fonts/A.woff2)", &fonts), Err(InlineError::MissingFont));
}

#[test]
fn every_reference_is_listed_in_order() {
    let css = "url(fonts/B.woff2)url(fonts/C.ttf)url(fonts/A.woff2)url(fonts/B.woff2)";
    let paths = woff2_font_paths(css).unwrap();
    assert_eq!(paths, vec!["fonts/B.woff2", "fonts/A.woff2", "fonts/B.woff2"]);
    let fonts: Vec<FontFile> = paths.iter().map(|p| font(p, p.as_bytes())).collect();
    let out = inline_woff2_fonts(css, &fonts).unwrap();
    assert!(out.contains("url(fonts/C.ttf)"));
    assert_eq!(out.matches("url(data:font/woff2;base64,").count(), 3);
}
