# mdview

A lightweight, read-only, keyboard-driven markdown viewer for Linux, built
around a library whose behaviour is specified and proved with Verus.

## Layout

- `src/` — the verified library
  - `keys.rs` — key bindings as a state machine (menu, quit, theme cycling,
    reload, zoom) and the overlay menu's lines
  - `theme.rs` — the five light and five dark palettes and their CSS
  - `document.rs` — markdown to a complete HTML page (comrak + syntect),
    base URI for relative links
  - `fonts.rs`, `base64.rs` — inlining KaTeX's `.woff2` fonts as base64
    `data:` URLs
  - `desktop.rs` — dark-mode detection, external links, file-change events
  - `window.rs` — remembered window state, titles, messages
  - `text.rs` — character-level search helpers
- `tests/` — tests of the library
- `app/main.rs` — the GTK/WebKit program: command line, files, window,
  printing, zoom

The program reads its style sheet and KaTeX from an `assets/` directory
(beside the executable, or in the working directory): `assets/theme.css`,
`assets/katex/katex.min.css`, `assets/katex/katex.min.js` and the fonts the
style sheet names under `assets/katex/fonts/`.
