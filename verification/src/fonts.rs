//! Inlining the web fonts that KaTeX's style sheet refers to, so that the
//! page needs no files besides itself.
//!
//! Every `url(fonts/<name>)` in the style sheet whose name ends in `.woff2`
//! becomes `url(data:font/woff2;base64,<contents>)`; other font URLs are
//! kept as they are.
use vstd::prelude::*;
use crate::base64::{base64, base64_encode};
use crate::text::{chars_of, contains_seq, ends_with_seq, find_chars, find_from, lemma_find_from, matches_at, occurs_at, push_char, starts_with_seq};

verus! {

broadcast use vstd::string::group_string_axioms;

/// Why a style sheet could not be inlined.
#[derive(Clone, Copy, Debug, PartialEq, Eq, Structural)]
pub enum InlineError {
    /// A `url(fonts/` without a closing `)`.
    MalformedUrl,
    /// A `.woff2` font that is not among the fonts supplied.
    MissingFont,
}

/// A font file: its path as the style sheet writes it, and its contents.
pub struct FontFile {
    pub path: String,
    pub bytes: Vec<u8>,
}

/// The marker that starts a font reference.
pub open spec fn font_url_marker() -> Seq<char> {
    "url(fonts/"@
}

/// The contents of the first supplied font with the given path.
pub open spec fn font_lookup(fonts: Seq<FontFile>, path: Seq<char>) -> Option<Seq<u8>>
    decreases fonts.len(),
{
    if fonts.len() == 0 {
        None
    } else if fonts[0].path@ == path {
        Some(fonts[0].bytes@)
    } else {
        font_lookup(fonts.drop_first(), path)
    }
}

/// `s` put in front of a successful result; errors pass through.
pub open spec fn prepend(s: Seq<char>, r: Result<Seq<char>, InlineError>) -> Result<Seq<char>, InlineError> {
    match r {
        Ok(t) => Ok(s + t),
        Err(e) => Err(e),
    }
}

/// What a font reference with path `path`, written as `original`, becomes.
pub open spec fn replacement(path: Seq<char>, original: Seq<char>, fonts: Seq<FontFile>) -> Result<Seq<char>, InlineError> {
    if ends_with_seq(path, ".woff2"@) {
        match font_lookup(fonts, path) {
            Some(b) => Ok("url(data:font/woff2;base64,"@ + base64(b) + ")"@),
            None => Err(InlineError::MissingFont),
        }
    } else {
        Ok(original)
    }
}

/// The inlined text of `css` from index `pos` on, reading references left
/// to right; the first failing reference decides the error.
pub open spec fn inline_from(css: Seq<char>, pos: int, fonts: Seq<FontFile>) -> Result<Seq<char>, InlineError>
    decreases css.len() + 1 - pos,
{
    if pos < 0 || pos > css.len() {
        Ok(Seq::empty())
    } else {
        match find_from(css, font_url_marker(), pos) {
            None => Ok(css.subrange(pos, css.len() as int)),
            Some(start) => match find_from(css, seq![')'], start + 4) {
                None => Err(InlineError::MalformedUrl),
                Some(close) => {
                    proof {
                        lemma_find_from(css, font_url_marker(), pos);
                        lemma_find_from(css, seq![')'], start + 4);
                    }
                    let path = css.subrange(start + 4, close);
                    match replacement(path, css.subrange(start, close + 1), fonts) {
                        Err(e) => Err(e),
                        Ok(p) => prepend(css.subrange(pos, start) + p, inline_from(css, close + 1, fonts)),
                    }
                },
            },
        }
    }
}

/// The paths of the `.woff2` fonts referenced from index `pos` on, in
/// order; `None` when a reference is not closed.
pub open spec fn woff2_paths_from(css: Seq<char>, pos: int) -> Option<Seq<Seq<char>>>
    decreases css.len() + 1 - pos,
{
    if pos < 0 || pos > css.len() {
        Some(Seq::empty())
    } else {
        match find_from(css, font_url_marker(), pos) {
            None => Some(Seq::empty()),
            Some(start) => match find_from(css, seq![')'], start + 4) {
                None => None,
                Some(close) => {
                    proof {
                        lemma_find_from(css, font_url_marker(), pos);
                        lemma_find_from(css, seq![')'], start + 4);
                    }
                    let path = css.subrange(start + 4, close);
                    match woff2_paths_from(css, close + 1) {
                        None => None,
                        Some(rest) => Some(
                            if ends_with_seq(path, ".woff2"@) {
                                seq![path] + rest
                            } else {
                                rest
                            },
                        ),
                    }
                },
            },
        }
    }
}

/// The text that `segs` and `mids` make when laid alternately:
/// `segs[0] + mids[0] + segs[1] + mids[1] + ... + segs[n]`.
pub open spec fn interleave(segs: Seq<Seq<char>>, mids: Seq<Seq<char>>) -> Seq<char>
    decreases mids.len(),
{
    if mids.len() == 0 || segs.len() == 0 {
        if segs.len() > 0 {
            segs[0]
        } else {
            Seq::empty()
        }
    } else {
        segs[0] + mids[0] + interleave(segs.drop_first(), mids.drop_first())
    }
}

/// A font reference as a style sheet writes it: `url(<path>)`.
pub open spec fn font_reference(path: Seq<char>) -> Seq<char> {
    "url("@ + path + ")"@
}

/// What an inlined style sheet holds in place of the reference to `path`:
/// for a `.woff2` font, the base64 `data:` URL of the first supplied font
/// of that path; for any other font, the reference as it was.
pub open spec fn inlined_reference(path: Seq<char>, fonts: Seq<FontFile>) -> Seq<char> {
    if ends_with_seq(path, ".woff2"@) {
        "url(data:font/woff2;base64,"@ + base64(font_lookup(fonts, path)->0) + ")"@
    } else {
        font_reference(path)
    }
}

/// The references to each of `paths`, in order.
pub open spec fn references(paths: Seq<Seq<char>>) -> Seq<Seq<char>> {
    Seq::new(paths.len(), |i: int| font_reference(paths[i]))
}

/// The inlined forms of the references to each of `paths`, in order.
pub open spec fn inlined_references(paths: Seq<Seq<char>>, fonts: Seq<FontFile>) -> Seq<Seq<char>> {
    Seq::new(paths.len(), |i: int| inlined_reference(paths[i], fonts))
}

/// `css` is the pieces of text `segs` with the font references to `paths`
/// between them. No piece holds the start of a reference, and each path
/// lies under `fonts/` and holds no `)`.
pub open spec fn splits_into_references(css: Seq<char>, segs: Seq<Seq<char>>, paths: Seq<Seq<char>>) -> bool {
    &&& segs.len() == paths.len() + 1
    &&& forall|i: int| 0 <= i < segs.len() ==> !contains_seq(#[trigger] segs[i], font_url_marker())
    &&& forall|i: int|
        0 <= i < paths.len() ==> starts_with_seq(#[trigger] paths[i], "fonts/"@) && !contains_seq(paths[i], seq![')'])
    &&& css == interleave(segs, references(paths))
}

/// `css` splits into the pieces `segs` with the references to `paths`
/// between them, and `out` is the same pieces, in the same order, with the
/// inlined form of each reference between them; each `.woff2` path is among
/// the fonts supplied.
pub open spec fn splits_at_references(
    css: Seq<char>,
    out: Seq<char>,
    segs: Seq<Seq<char>>,
    paths: Seq<Seq<char>>,
    fonts: Seq<FontFile>,
) -> bool {
    &&& splits_into_references(css, segs, paths)
    &&& forall|i: int|
        0 <= i < paths.len() && ends_with_seq(#[trigger] paths[i], ".woff2"@) ==> font_lookup(fonts, paths[i]) is Some
    &&& out == interleave(segs, inlined_references(paths, fonts))
}

/// The paths among `paths` that end in `.woff2`, in order.
pub open spec fn woff2_only(paths: Seq<Seq<char>>) -> Seq<Seq<char>>
    decreases paths.len(),
{
    if paths.len() == 0 {
        Seq::empty()
    } else {
        (if ends_with_seq(paths[0], ".woff2"@) {
            seq![paths[0]]
        } else {
            Seq::empty()
        }) + woff2_only(paths.drop_first())
    }
}

/// A `url(fonts/` at `i` that no `)` closes.
pub open spec fn unclosed_reference_at(css: Seq<char>, i: int) -> bool {
    &&& occurs_at(css, font_url_marker(), i)
    &&& forall|j: int| i + 4 <= j < css.len() ==> css[j] != ')'
}

/// Inlining changes nothing but the font references: when it succeeds, the
/// style sheet and the result are made of the same pieces of text in the
/// same order, with the references between them in the style sheet and
/// their inlined forms (a `data:` URL for a `.woff2` font, the reference
/// itself for another) between them in the result.
pub proof fn lemma_inlining_keeps_other_text(css: Seq<char>, fonts: Seq<FontFile>)
    requires
        inline_from(css, 0, fonts) is Ok,
    ensures
        exists|segs: Seq<Seq<char>>, paths: Seq<Seq<char>>|
            splits_at_references(css, inline_from(css, 0, fonts)->Ok_0, segs, paths, fonts),
{
    let (segs, paths) = lemma_split_from(css, fonts, 0);
    assert(css.subrange(0, css.len() as int) =~= css);
    assert(splits_at_references(css, inline_from(css, 0, fonts)->Ok_0, segs, paths, fonts));
}

/// The fonts listed are those the style sheet references: when listing
/// succeeds, the style sheet splits into pieces of text with font
/// references between them, and the list holds the paths of the `.woff2`
/// ones among those references, in order, each as often as it occurs.
pub proof fn lemma_listed_paths_are_the_references(css: Seq<char>)
    requires
        woff2_paths_from(css, 0) is Some,
    ensures
        exists|segs: Seq<Seq<char>>, paths: Seq<Seq<char>>|
            splits_into_references(css, segs, paths) && woff2_paths_from(css, 0)->0 == woff2_only(paths),
{
    let (segs, paths) = lemma_paths_split_from(css, 0);
    assert(css.subrange(0, css.len() as int) =~= css);
    assert(splits_into_references(css, segs, paths) && woff2_paths_from(css, 0)->0 == woff2_only(paths));
}

/// Listing fails exactly when the style sheet holds a `url(fonts/` that no
/// later `)` closes.
pub proof fn lemma_listing_fails_on_unclosed_reference(css: Seq<char>)
    ensures
        woff2_paths_from(css, 0) is None <==> exists|i: int| #[trigger] unclosed_reference_at(css, i),
{
    if woff2_paths_from(css, 0) is None {
        let i = lemma_paths_none_witness(css, 0);
        assert(unclosed_reference_at(css, i));
    }
    if exists|i: int| #[trigger] unclosed_reference_at(css, i) {
        let i = choose|i: int| #[trigger] unclosed_reference_at(css, i);
        lemma_paths_none_from(css, 0, i);
    }
}

/// Where listing from `pos` fails, an unclosed reference at or after `pos`.
proof fn lemma_paths_none_witness(css: Seq<char>, pos: int) -> (i: int)
    requires
        0 <= pos <= css.len(),
        woff2_paths_from(css, pos) is None,
    ensures
        pos <= i,
        unclosed_reference_at(css, i),
    decreases css.len() + 1 - pos,
{
    lemma_find_from(css, font_url_marker(), pos);
    let start = find_from(css, font_url_marker(), pos)->0;
    lemma_find_from(css, seq![')'], start + 4);
    match find_from(css, seq![')'], start + 4) {
        None => {
            assert forall|j: int| start + 4 <= j < css.len() implies css[j] != ')' by {
                if css[j] == ')' {
                    assert(css.subrange(j, j + 1) =~= seq![')']);
                    assert(occurs_at(css, seq![')'], j));
                }
            }
            start
        },
        Some(close) => {
            lemma_paths_none_witness(css, close + 1)
        },
    }
}

/// An unclosed reference at `i`, at or after `pos`, makes listing from
/// `pos` fail.
proof fn lemma_paths_none_from(css: Seq<char>, pos: int, i: int)
    requires
        0 <= pos <= i,
        unclosed_reference_at(css, i),
    ensures
        woff2_paths_from(css, pos) is None,
    decreases css.len() + 1 - pos,
{
    reveal_strlit("url(fonts/");
    lemma_find_from(css, font_url_marker(), pos);
    let start = find_from(css, font_url_marker(), pos)->0;
    assert(start <= i);
    lemma_find_from(css, seq![')'], start + 4);
    match find_from(css, seq![')'], start + 4) {
        None => {},
        Some(close) => {
            assert(occurs_at(css, seq![')'], close));
            assert(css.subrange(close, close + 1)[0] == ')');
            assert(css[close] == ')');
            // The bracket cannot lie within `url(` at `i`, so it comes before it.
            assert(font_url_marker() =~= seq!['u', 'r', 'l', '(', 'f', 'o', 'n', 't', 's', '/']);
            if i <= close && close < i + 4 {
                assert(css[close] == css.subrange(i, i + 10)[close - i]);
            }
            assert(close < i);
            lemma_paths_none_from(css, close + 1, i);
        },
    }
}

/// The split of `css` from `pos` on that listing reads.
proof fn lemma_paths_split_from(css: Seq<char>, pos: int) -> (r: (Seq<Seq<char>>, Seq<Seq<char>>))
    requires
        0 <= pos <= css.len(),
        woff2_paths_from(css, pos) is Some,
    ensures
        splits_into_references(css.subrange(pos, css.len() as int), r.0, r.1),
        woff2_paths_from(css, pos)->0 == woff2_only(r.1),
    decreases css.len() + 1 - pos,
{
    lemma_find_from(css, font_url_marker(), pos);
    match find_from(css, font_url_marker(), pos) {
        None => {
            lemma_no_marker_in_piece(css, pos, css.len() as int);
            let paths = Seq::<Seq<char>>::empty();
            assert(references(paths) =~= Seq::<Seq<char>>::empty());
            (seq![css.subrange(pos, css.len() as int)], paths)
        },
        Some(start) => {
            lemma_find_from(css, seq![')'], start + 4);
            let close = find_from(css, seq![')'], start + 4)->0;
            let path = css.subrange(start + 4, close);
            let (segs1, paths1) = lemma_paths_split_from(css, close + 1);
            lemma_reference_at(css, pos, start, close);
            let segs = seq![css.subrange(pos, start)] + segs1;
            let paths = seq![path] + paths1;
            lemma_split_step(css, pos, start, close, segs1, paths1);
            assert(paths.drop_first() =~= paths1);
            (segs, paths)
        },
    }
}

/// What a reference found at `start` from `pos`, closed at `close`, is made of.
proof fn lemma_reference_at(css: Seq<char>, pos: int, start: int, close: int)
    requires
        0 <= pos <= start,
        find_from(css, font_url_marker(), pos) == Some(start),
        find_from(css, seq![')'], start + 4) == Some(close),
    ensures
        start + 10 <= close < css.len(),
        starts_with_seq(css.subrange(start + 4, close), "fonts/"@),
        !contains_seq(css.subrange(start + 4, close), seq![')']),
        !contains_seq(css.subrange(pos, start), font_url_marker()),
        css.subrange(start, close + 1) == font_reference(css.subrange(start + 4, close)),
        css.subrange(pos, css.len() as int) == css.subrange(pos, start) + font_reference(css.subrange(start + 4, close))
            + css.subrange(close + 1, css.len() as int),
{
    reveal_strlit("url(fonts/");
    reveal_strlit("fonts/");
    reveal_strlit("url(");
    reveal_strlit(")");
    let marker = font_url_marker();
    lemma_find_from(css, marker, pos);
    lemma_find_from(css, seq![')'], start + 4);
    let path = css.subrange(start + 4, close);
    lemma_no_marker_in_piece(css, pos, start);
    assert(css.subrange(start, start + 10) == marker);
    assert(marker =~= seq!['u', 'r', 'l', '(', 'f', 'o', 'n', 't', 's', '/']);
    if close < start + 10 {
        assert(css[close] == css.subrange(start, start + 10)[close - start]);
        assert(css.subrange(close, close + 1)[0] == ')');
        assert(false);
    }
    assert(path.subrange(0, 6) =~= css.subrange(start, start + 10).subrange(4, 10));
    assert("fonts/"@ =~= seq!['f', 'o', 'n', 't', 's', '/']);
    assert(path.subrange(0, 6) =~= "fonts/"@);
    assert(!contains_seq(path, seq![')'])) by {
        if contains_seq(path, seq![')']) {
            let k = choose|k: int| occurs_at(path, seq![')'], k);
            assert(css.subrange(start + 4 + k, start + 5 + k) =~= path.subrange(k, k + 1));
            assert(occurs_at(css, seq![')'], start + 4 + k));
        }
    }
    assert("url("@ =~= seq!['u', 'r', 'l', '(']);
    assert(")"@ =~= seq![')']);
    assert(css.subrange(start, start + 4) =~= css.subrange(start, start + 10).subrange(0, 4));
    assert(occurs_at(css, seq![')'], close));
    assert(css.subrange(close, close + 1) == ")"@);
    assert(css.subrange(start, close + 1) =~= css.subrange(start, start + 4) + path + css.subrange(close, close + 1));
    assert(css.subrange(pos, css.len() as int) =~= css.subrange(pos, start) + font_reference(path) + css.subrange(close + 1, css.len() as int));
}

/// One more reference in front of a split gives a split.
proof fn lemma_split_step(css: Seq<char>, pos: int, start: int, close: int, segs1: Seq<Seq<char>>, paths1: Seq<Seq<char>>)
    requires
        0 <= pos <= start,
        start + 10 <= close < css.len(),
        starts_with_seq(css.subrange(start + 4, close), "fonts/"@),
        !contains_seq(css.subrange(start + 4, close), seq![')']),
        !contains_seq(css.subrange(pos, start), font_url_marker()),
        css.subrange(pos, css.len() as int) == css.subrange(pos, start) + font_reference(css.subrange(start + 4, close))
            + css.subrange(close + 1, css.len() as int),
        splits_into_references(css.subrange(close + 1, css.len() as int), segs1, paths1),
    ensures
        splits_into_references(
            css.subrange(pos, css.len() as int),
            seq![css.subrange(pos, start)] + segs1,
            seq![css.subrange(start + 4, close)] + paths1,
        ),
{
    let segs = seq![css.subrange(pos, start)] + segs1;
    let paths = seq![css.subrange(start + 4, close)] + paths1;
    assert(segs.drop_first() =~= segs1);
    assert(references(paths).drop_first() =~= references(paths1));
    assert forall|i: int| 0 <= i < segs.len() implies !contains_seq(#[trigger] segs[i], font_url_marker()) by {
        if i > 0 {
            assert(segs[i] == segs1[i - 1]);
        }
    }
    assert forall|i: int|
        0 <= i < paths.len() implies starts_with_seq(#[trigger] paths[i], "fonts/"@) && !contains_seq(paths[i], seq![')']) by {
        if i > 0 {
            assert(paths[i] == paths1[i - 1]);
        }
    }
}

/// A marker-free piece cut from a text in which the marker does not occur
/// at or after `lo` holds no marker either.
proof fn lemma_no_marker_in_piece(css: Seq<char>, lo: int, hi: int)
    requires
        0 <= lo <= hi <= css.len(),
        forall|j: int| lo <= j && j + font_url_marker().len() <= hi ==> !occurs_at(css, font_url_marker(), j),
    ensures
        !contains_seq(css.subrange(lo, hi), font_url_marker()),
{
    let piece = css.subrange(lo, hi);
    if contains_seq(piece, font_url_marker()) {
        let k = choose|k: int| occurs_at(piece, font_url_marker(), k);
        assert(css.subrange(lo + k, lo + k + font_url_marker().len()) =~= piece.subrange(k, k + font_url_marker().len()));
        assert(occurs_at(css, font_url_marker(), lo + k));
    }
}

/// The split of `css` from `pos` on that `splits_at_references` describes.
proof fn lemma_split_from(css: Seq<char>, fonts: Seq<FontFile>, pos: int) -> (r: (Seq<Seq<char>>, Seq<Seq<char>>))
    requires
        0 <= pos <= css.len(),
        inline_from(css, pos, fonts) is Ok,
    ensures
        splits_at_references(css.subrange(pos, css.len() as int), inline_from(css, pos, fonts)->Ok_0, r.0, r.1, fonts),
    decreases css.len() + 1 - pos,
{
    lemma_find_from(css, font_url_marker(), pos);
    match find_from(css, font_url_marker(), pos) {
        None => {
            lemma_no_marker_in_piece(css, pos, css.len() as int);
            let paths = Seq::<Seq<char>>::empty();
            assert(references(paths) =~= Seq::<Seq<char>>::empty());
            assert(inlined_references(paths, fonts) =~= Seq::<Seq<char>>::empty());
            (seq![css.subrange(pos, css.len() as int)], paths)
        },
        Some(start) => {
            lemma_find_from(css, seq![')'], start + 4);
            let close = find_from(css, seq![')'], start + 4)->0;
            let path = css.subrange(start + 4, close);
            let seg = css.subrange(pos, start);
            let (segs1, paths1) = lemma_split_from(css, fonts, close + 1);
            lemma_reference_at(css, pos, start, close);
            lemma_split_step(css, pos, start, close, segs1, paths1);
            let segs = seq![seg] + segs1;
            let paths = seq![path] + paths1;
            assert(segs.drop_first() =~= segs1);
            assert(inlined_references(paths, fonts).drop_first() =~= inlined_references(paths1, fonts));
            let p = replacement(path, css.subrange(start, close + 1), fonts)->Ok_0;
            assert(p == inlined_reference(path, fonts));
            assert forall|i: int|
                0 <= i < paths.len() && ends_with_seq(#[trigger] paths[i], ".woff2"@) implies font_lookup(fonts, paths[i]) is Some by {
                if i > 0 {
                    assert(paths[i] == paths1[i - 1]);
                }
            }
            (segs, paths)
        },
    }
}

/// Prepending twice is prepending the concatenation.
proof fn lemma_prepend_twice(a: Seq<char>, b: Seq<char>, r: Result<Seq<char>, InlineError>)
    ensures
        prepend(a, prepend(b, r)) == prepend(a + b, r),
{
    match r {
        Ok(t) => assert(a + (b + t) =~= (a + b) + t),
        Err(e) => {},
    }
}

/// Appends the characters of `v` with indices in `lo..hi`.
fn append_range(out: &mut String, v: &Vec<char>, lo: usize, hi: usize)
    requires
        lo <= hi <= v.len(),
    ensures
        final(out)@ == old(out)@ + v@.subrange(lo as int, hi as int),
{
    let ghost start = out@;
    let mut i = lo;
    while i < hi
        invariant
            lo <= i <= hi,
            hi <= v.len(),
            out@ == start + v@.subrange(lo as int, i as int),
        decreases hi - i,
    {
        push_char(out, v[i]);
        i += 1;
        assert(out@ =~= start + v@.subrange(lo as int, i as int));
    }
}

/// The characters of `v` with indices in `lo..hi`.
fn subrange_vec(v: &Vec<char>, lo: usize, hi: usize) -> (r: Vec<char>)
    requires
        lo <= hi <= v.len(),
    ensures
        r@ == v@.subrange(lo as int, hi as int),
{
    let mut r: Vec<char> = Vec::new();
    let mut i = lo;
    while i < hi
        invariant
            lo <= i <= hi,
            hi <= v.len(),
            r@ == v@.subrange(lo as int, i as int),
        decreases hi - i,
    {
        r.push(v[i]);
        i += 1;
        assert(r@ =~= v@.subrange(lo as int, i as int));
    }
    r
}

/// Whether `hay` ends with `pat`.
fn ends_with_chars(hay: &Vec<char>, pat: &Vec<char>) -> (b: bool)
    ensures
        b == ends_with_seq(hay@, pat@),
{
    if hay.len() < pat.len() {
        false
    } else {
        matches_at(hay, pat, hay.len() - pat.len())
    }
}

/// The String holding exactly the characters of `v`.
fn string_of(v: &Vec<char>) -> (s: String)
    ensures
        s@ == v@,
{
    let mut s = String::new();
    append_range(&mut s, v, 0, v.len());
    assert(v@.subrange(0, v@.len() as int) =~= v@);
    s
}

/// The index of the first supplied font whose path is `path`.
fn find_font(fonts: &Vec<FontFile>, path: &Vec<char>) -> (r: Option<usize>)
    ensures
        match r {
            Some(k) => k < fonts@.len() && font_lookup(fonts@, path@) == Some(fonts@[k as int].bytes@),
            None => font_lookup(fonts@, path@) is None,
        },
{
    let mut i: usize = 0;
    assert(fonts@.skip(0) =~= fonts@);
    while i < fonts.len()
        invariant
            i <= fonts@.len(),
            font_lookup(fonts@, path@) == font_lookup(fonts@.skip(i as int), path@),
        decreases fonts.len() - i,
    {
        let candidate = chars_of(fonts[i].path.as_str());
        if candidate.len() == path.len() && matches_at(&candidate, path, 0) {
            assert(candidate@ =~= path@) by {
                assert(candidate@.subrange(0, path@.len() as int) =~= candidate@);
            }
            return Some(i);
        }
        assert(candidate@ != path@) by {
            if candidate@ == path@ {
                assert(candidate@.subrange(0, path@.len() as int) =~= path@);
            }
        }
        assert(fonts@.skip(i as int).drop_first() =~= fonts@.skip(i + 1));
        i += 1;
    }
    None
}

/// Inlines the `.woff2` fonts of a style sheet: each `url(fonts/<name>)`
/// whose name ends in `.woff2` becomes a base64 `data:` URL holding the
/// supplied font of that path; other text is copied unchanged. Fails on a
/// reference without a closing `)` or a `.woff2` font not supplied.
pub fn inline_woff2_fonts(css: &str, fonts: &Vec<FontFile>) -> (r: Result<String, InlineError>)
    ensures
        match inline_from(css@, 0, fonts@) {
            Ok(t) => r matches Ok(s) && s@ == t,
            Err(e) => r matches Err(re) && re == e,
        },
        r matches Ok(s) ==> exists|segs: Seq<Seq<char>>, paths: Seq<Seq<char>>|
            splits_at_references(css@, s@, segs, paths, fonts@),
{
    let c = chars_of(css);
    let marker = chars_of("url(fonts/");
    let woff = chars_of(".woff2");
    let mut close_pat: Vec<char> = Vec::new();
    close_pat.push(')');
    proof {
        reveal_strlit("url(fonts/");
        assert(close_pat@ =~= seq![')']);
    }
    let mut out = String::new();
    let mut pos: usize = 0;
    assert(out@ + Seq::<char>::empty() =~= Seq::<char>::empty());
    proof {
        match inline_from(css@, 0, fonts@) {
            Ok(t) => assert(out@ + t =~= t),
            Err(e) => {},
        }
    }
    loop
        invariant
            pos <= c@.len(),
            c@ == css@,
            marker@ == font_url_marker(),
            marker@.len() == 10,
            close_pat@ == seq![')'],
            woff@ == ".woff2"@,
            inline_from(css@, 0, fonts@) == prepend(out@, inline_from(css@, pos as int, fonts@)),
        decreases c@.len() + 1 - pos,
    {
        let ghost before = out@;
        match find_chars(&c, &marker, pos) {
            None => {
                append_range(&mut out, &c, pos, c.len());
                proof {
                    lemma_prepend_twice(before, css@.subrange(pos as int, css@.len() as int), Ok(Seq::empty()));
                    assert(out@ =~= out@ + Seq::<char>::empty());
                    lemma_inlining_keeps_other_text(css@, fonts@);
                }
                return Ok(out);
            },
            Some(start) => {
                proof {
                    lemma_find_from(c@, marker@, pos as int);
                    assert(occurs_at(c@, marker@, start as int));
                    assert(start + 10 <= c.len());
                }
                match find_chars(&c, &close_pat, start + 4) {
                    None => {
                        return Err(InlineError::MalformedUrl);
                    },
                    Some(close) => {
                        proof {
                            lemma_find_from(c@, close_pat@, start + 4);
                            assert(occurs_at(c@, close_pat@, close as int));
                            assert(close < c.len());
                        }
                        let path = subrange_vec(&c, start + 4, close);
                        let ghost rest = inline_from(css@, close + 1, fonts@);
                        if ends_with_chars(&path, &woff) {
                            match find_font(fonts, &path) {
                                None => {
                                    return Err(InlineError::MissingFont);
                                },
                                Some(k) => {
                                    append_range(&mut out, &c, pos, start);
                                    out.append("url(data:font/woff2;base64,");
                                    let encoded = base64_encode(fonts[k].bytes.as_slice());
                                    out.append(encoded.as_str());
                                    out.append(")");
                                    proof {
                                        let p = "url(data:font/woff2;base64,"@ + base64(fonts@[k as int].bytes@) + ")"@;
                                        assert(out@ =~= before + (css@.subrange(pos as int, start as int) + p));
                                        lemma_prepend_twice(before, css@.subrange(pos as int, start as int) + p, rest);
                                    }
                                }
                            }
                        } else {
                            append_range(&mut out, &c, pos, close + 1);
                            proof {
                                let p = css@.subrange(start as int, close + 1);
                                assert(css@.subrange(pos as int, close + 1) =~= css@.subrange(pos as int, start as int) + p);
                                lemma_prepend_twice(before, css@.subrange(pos as int, start as int) + p, rest);
                            }
                        }
                        pos = close + 1;
                    },
                }
            },
        }
    }
}

/// The paths of the `.woff2` fonts a style sheet references, in order of
/// appearance (a path referenced twice is listed twice). Fails on a
/// reference without a closing `)`.
pub fn woff2_font_paths(css: &str) -> (r: Result<Vec<String>, InlineError>)
    ensures
        match woff2_paths_from(css@, 0) {
            Some(ps) => r matches Ok(v) && v@.map_values(|s: String| s@) == ps,
            None => r matches Err(e) && e == InlineError::MalformedUrl,
        },
        r is Err <==> exists|i: int| #[trigger] unclosed_reference_at(css@, i),
        r matches Ok(v) ==> exists|segs: Seq<Seq<char>>, paths: Seq<Seq<char>>|
            splits_into_references(css@, segs, paths) && v@.map_values(|s: String| s@) == woff2_only(paths),
{
    let c = chars_of(css);
    let marker = chars_of("url(fonts/");
    let woff = chars_of(".woff2");
    let mut close_pat: Vec<char> = Vec::new();
    close_pat.push(')');
    proof {
        reveal_strlit("url(fonts/");
        assert(close_pat@ =~= seq![')']);
    }
    let mut paths: Vec<String> = Vec::new();
    let mut pos: usize = 0;
    loop
        invariant
            pos <= c@.len(),
            c@ == css@,
            marker@ == font_url_marker(),
            marker@.len() == 10,
            close_pat@ == seq![')'],
            woff@ == ".woff2"@,
            woff2_paths_from(css@, 0) == match woff2_paths_from(css@, pos as int) {
                Some(rest) => Some(paths@.map_values(|s: String| s@) + rest),
                None => None,
            },
        decreases c@.len() + 1 - pos,
    {
        let ghost before = paths@.map_values(|s: String| s@);
        match find_chars(&c, &marker, pos) {
            None => {
                assert(before + Seq::<Seq<char>>::empty() =~= before);
                proof {
                    lemma_listing_fails_on_unclosed_reference(css@);
                    lemma_listed_paths_are_the_references(css@);
                }
                return Ok(paths);
            },
            Some(start) => {
                proof {
                    lemma_find_from(c@, marker@, pos as int);
                    assert(occurs_at(c@, marker@, start as int));
                    assert(start + 10 <= c.len());
                }
                match find_chars(&c, &close_pat, start + 4) {
                    None => {
                        proof {
                            lemma_listing_fails_on_unclosed_reference(css@);
                        }
                        return Err(InlineError::MalformedUrl);
                    },
                    Some(close) => {
                        proof {
                            lemma_find_from(c@, close_pat@, start + 4);
                            assert(occurs_at(c@, close_pat@, close as int));
                            assert(close < c.len());
                        }
                        let path = subrange_vec(&c, start + 4, close);
                        if ends_with_chars(&path, &woff) {
                            paths.push(string_of(&path));
                            proof {
                                assert(paths@.map_values(|s: String| s@) =~= before + seq![path@]);
                                match woff2_paths_from(css@, close + 1) {
                                    Some(rest) => assert(before + (seq![path@] + rest) =~= (before + seq![path@]) + rest),
                                    None => {},
                                }
                            }
                        }
                        pos = close + 1;
                    },
                }
            },
        }
    }
}

/// Supplying a font for every path `woff2_font_paths` lists is enough for
/// the inlining to succeed.
pub proof fn lemma_listed_fonts_suffice(css: Seq<char>, fonts: Seq<FontFile>)
    requires
        woff2_paths_from(css, 0) is Some,
        forall|i: int|
            0 <= i < woff2_paths_from(css, 0)->0.len() ==> #[trigger] font_lookup(
                fonts,
                woff2_paths_from(css, 0)->0[i],
            ) is Some,
    ensures
        inline_from(css, 0, fonts) is Ok,
{
    lemma_listed_fonts_suffice_from(css, fonts, 0);
}

proof fn lemma_listed_fonts_suffice_from(css: Seq<char>, fonts: Seq<FontFile>, pos: int)
    requires
        0 <= pos <= css.len(),
        woff2_paths_from(css, pos) is Some,
        forall|i: int|
            0 <= i < woff2_paths_from(css, pos)->0.len() ==> #[trigger] font_lookup(
                fonts,
                woff2_paths_from(css, pos)->0[i],
            ) is Some,
    ensures
        inline_from(css, pos, fonts) is Ok,
    decreases css.len() + 1 - pos,
{
    lemma_find_from(css, font_url_marker(), pos);
    match find_from(css, font_url_marker(), pos) {
        None => {},
        Some(start) => {
            lemma_find_from(css, seq![')'], start + 4);
            match find_from(css, seq![')'], start + 4) {
                None => {},
                Some(close) => {
                    let path = css.subrange(start + 4, close);
                    let rest = woff2_paths_from(css, close + 1)->0;
                    if ends_with_seq(path, ".woff2"@) {
                        assert(woff2_paths_from(css, pos)->0 == seq![path] + rest);
                        assert(font_lookup(fonts, woff2_paths_from(css, pos)->0[0]) is Some);
                        assert forall|i: int| 0 <= i < rest.len() implies #[trigger] font_lookup(fonts, rest[i]) is Some by {
                            assert(woff2_paths_from(css, pos)->0[i + 1] == rest[i]);
                        }
                    }
                    lemma_listed_fonts_suffice_from(css, fonts, close + 1);
                },
            }
        },
    }
}

} // verus!
