//! Decisions on what the desktop reports: the colour scheme, link clicks
//! and changes to the watched file.
use vstd::prelude::*;
use crate::text::{contains_seq, occurs_at, starts_with_seq, str_contains, str_starts_with};

verus! {

/// What the toolkit's settings say about the desktop's appearance.
pub struct DisplaySettings {
    /// The application is asked to prefer a dark theme.
    pub prefer_dark_theme: bool,
    /// Name of the desktop's widget theme, if one is set.
    pub theme_name: Option<String>,
}

/// The lower-case form of `s` as the standard library's `str::to_lowercase`
/// computes it (Unicode lower-case mapping).
pub uninterp spec fn unicode_lowercase(s: Seq<char>) -> Seq<char>;

/// Lower-cases `s` with `str::to_lowercase`.
///
/// Trusted: the result is named `unicode_lowercase` of the argument; the
/// Unicode mapping itself is not stated.
#[verifier::external_body]
fn to_lowercase(s: &str) -> (r: String)
    ensures
        r@ == unicode_lowercase(s@),
{
    s.to_lowercase()
}

/// Whether an already lower-cased theme name marks a dark theme, that is,
/// contains `dark`.
pub fn names_dark_theme(lowercased_name: &str) -> (b: bool)
    ensures
        b == contains_seq(lowercased_name@, "dark"@),
{
    str_contains(lowercased_name, "dark")
}

/// Whether the page should use a dark theme, given the toolkit settings.
pub open spec fn prefers_dark(settings: Option<DisplaySettings>) -> bool {
    match settings {
        None => false,
        Some(s) => s.prefer_dark_theme || match s.theme_name {
            Some(name) => contains_seq(unicode_lowercase(name@), "dark"@),
            None => false,
        },
    }
}

/// The desktop is in dark mode when the application is asked to prefer a
/// dark theme, or when the widget theme's name contains `dark` in any
/// letter case. Without settings it is not.
pub fn is_dark_mode(settings: &Option<DisplaySettings>) -> (dark: bool)
    ensures
        dark == prefers_dark(*settings),
        dark <==> (settings matches Some(s) && (s.prefer_dark_theme || (s.theme_name matches Some(name)
            && exists|i: int| 0 <= i && i + 4 <= unicode_lowercase(name@).len()
                && #[trigger] unicode_lowercase(name@).subrange(i, i + 4) == "dark"@))),
{
    proof {
        lemma_dark_mode_from_settings(*settings);
    }
    match settings {
        None => false,
        Some(s) => {
            if s.prefer_dark_theme {
                return true;
            }
            match &s.theme_name {
                Some(name) => {
                    let lower = to_lowercase(name.as_str());
                    names_dark_theme(lower.as_str())
                },
                None => false,
            }
        },
    }
}

/// The desktop counts as dark exactly when the toolkit's settings are
/// present and either ask for a dark theme or name a widget theme whose
/// lower-cased name holds `dark` at some position (at its start, in the
/// middle or at its end alike).
pub proof fn lemma_dark_mode_from_settings(settings: Option<DisplaySettings>)
    ensures
        prefers_dark(settings) <==> (settings matches Some(s) && (s.prefer_dark_theme || (s.theme_name matches Some(name)
            && exists|i: int| 0 <= i && i + 4 <= unicode_lowercase(name@).len()
                && #[trigger] unicode_lowercase(name@).subrange(i, i + 4) == "dark"@))),
{
    reveal_strlit("dark");
    if let Some(s) = settings {
        if let Some(name) = s.theme_name {
            let lower = unicode_lowercase(name@);
            if contains_seq(lower, "dark"@) {
                let i = choose|i: int| occurs_at(lower, "dark"@, i);
                assert(0 <= i && i + 4 <= lower.len() && lower.subrange(i, i + 4) == "dark"@);
            }
            if exists|i: int| 0 <= i && i + 4 <= lower.len() && #[trigger] lower.subrange(i, i + 4) == "dark"@ {
                let i = choose|i: int| 0 <= i && i + 4 <= lower.len() && #[trigger] lower.subrange(i, i + 4) == "dark"@;
                assert(occurs_at(lower, "dark"@, i));
            }
        }
    }
}

/// A theme name whose lower-cased form holds `dark` at any position makes
/// the desktop dark, whatever surrounds it.
pub proof fn lemma_dark_anywhere_in_name(settings: Option<DisplaySettings>, before: Seq<char>, after: Seq<char>)
    requires
        settings matches Some(s) && s.theme_name matches Some(name)
            && unicode_lowercase(name@) == before + "dark"@ + after,
    ensures
        prefers_dark(settings),
{
    reveal_strlit("dark");
    let name = settings->0.theme_name->0;
    let lower = unicode_lowercase(name@);
    assert(lower.subrange(before.len() as int, before.len() + 4int) =~= "dark"@);
    assert(occurs_at(lower, "dark"@, before.len() as int));
}

/// Whether a link leads to the web (and so opens in the default browser
/// rather than inside the viewer).
pub open spec fn is_web_link(uri: Seq<char>) -> bool {
    starts_with_seq(uri, "http://"@) || starts_with_seq(uri, "https://"@)
}

/// Whether navigating to `uri` must be handed to the default browser:
/// links starting with `http://` or `https://`. Others (local files,
/// anchors) stay in the viewer.
pub fn is_external_link(uri: &str) -> (b: bool)
    ensures
        b == is_web_link(uri@),
        b <==> (uri@.len() >= 7 && uri@.take(7) == "http://"@) || (uri@.len() >= 8 && uri@.take(8) == "https://"@),
{
    proof {
        lemma_web_links_by_scheme(Seq::empty(), uri@);
    }
    str_starts_with(uri, "http://") || str_starts_with(uri, "https://")
}

/// A link is handed to the browser exactly when it begins with `http://`
/// or `https://`, whatever follows the scheme (host, path, query or
/// fragment).
pub proof fn lemma_web_links_by_scheme(rest: Seq<char>, uri: Seq<char>)
    ensures
        is_web_link("http://"@ + rest),
        is_web_link("https://"@ + rest),
        is_web_link(uri) <==> (uri.len() >= 7 && uri.take(7) == "http://"@) || (uri.len() >= 8 && uri.take(8) == "https://"@),
{
    reveal_strlit("http://");
    reveal_strlit("https://");
    assert(("http://"@ + rest).subrange(0, 7) =~= "http://"@);
    assert(("https://"@ + rest).subrange(0, 8) =~= "https://"@);
    assert(uri.take(7) =~= uri.subrange(0, 7));
    assert(uri.take(8) =~= uri.subrange(0, 8));
}

/// A change reported by the file monitor.
#[derive(Clone, Copy, Debug, PartialEq, Eq, Structural)]
pub enum FileChange {
    /// The file's contents changed.
    Changed,
    /// A burst of changes has finished.
    ChangesDoneHint,
    /// Anything else (deletion, attribute change, move, ...).
    Other,
}

/// Whether a change to the watched file calls for re-rendering it.
pub fn reloads_on(change: FileChange) -> (b: bool)
    ensures
        b == (change is Changed || change is ChangesDoneHint),
{
    match change {
        FileChange::Changed => true,
        FileChange::ChangesDoneHint => true,
        FileChange::Other => false,
    }
}

} // verus!
