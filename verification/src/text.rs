//! Character-level helpers used by the rendering and input-handling code.
use vstd::prelude::*;

verus! {

broadcast use vstd::string::group_string_axioms;

/// Appends one character to a `String`.
///
/// Trusted: `String::push` appends its argument to the end of the string,
/// as the standard library documents.
#[verifier::external_body]
pub(crate) fn push_char(s: &mut String, c: char)
    ensures
        final(s)@ == old(s)@.push(c),
{
    s.push(c);
}

/// The characters of `s`, in order.
pub fn chars_of(s: &str) -> (v: Vec<char>)
    ensures
        v@ == s@,
{
    let mut v: Vec<char> = Vec::new();
    for c in it: s.chars()
        invariant
            v@ == it.seq().take(it.index() as int),
            it.seq() == s@,
    {
        v.push(c);
    }
    v
}


/// `pat` occurs in `hay` starting at index `i`.
pub open spec fn occurs_at(hay: Seq<char>, pat: Seq<char>, i: int) -> bool {
    0 <= i && i + pat.len() <= hay.len() && hay.subrange(i, i + pat.len()) == pat
}

/// `pat` occurs somewhere in `hay`.
pub open spec fn contains_seq(hay: Seq<char>, pat: Seq<char>) -> bool {
    exists|i: int| occurs_at(hay, pat, i)
}

/// `hay` begins with `pat`.
pub open spec fn starts_with_seq(hay: Seq<char>, pat: Seq<char>) -> bool {
    occurs_at(hay, pat, 0)
}

/// `hay` ends with `pat`.
pub open spec fn ends_with_seq(hay: Seq<char>, pat: Seq<char>) -> bool {
    occurs_at(hay, pat, hay.len() - pat.len())
}

/// The first index at or after `i` where `pat` occurs in `hay`.
pub open spec fn find_from(hay: Seq<char>, pat: Seq<char>, i: int) -> Option<int>
    decreases hay.len() + 1 - i,
{
    if i < 0 || i + pat.len() > hay.len() {
        None
    } else if hay.subrange(i, i + pat.len()) == pat {
        Some(i)
    } else {
        find_from(hay, pat, i + 1)
    }
}

/// What `find_from` returns is the first occurrence at or after `i`, and
/// it returns nothing exactly when there is none there.
pub proof fn lemma_find_from(hay: Seq<char>, pat: Seq<char>, i: int)
    requires
        0 <= i,
    ensures
        match find_from(hay, pat, i) {
            Some(k) => i <= k && occurs_at(hay, pat, k) && forall|j: int|
                i <= j < k ==> !occurs_at(hay, pat, j),
            None => forall|j: int| i <= j ==> !occurs_at(hay, pat, j),
        },
    decreases hay.len() + 1 - i,
{
    if i + pat.len() > hay.len() {
    } else if hay.subrange(i, i + pat.len()) == pat {
    } else {
        lemma_find_from(hay, pat, i + 1);
    }
}

/// Whether `pat` occurs in `hay` at index `i`.
pub fn matches_at(hay: &Vec<char>, pat: &Vec<char>, i: usize) -> (b: bool)
    ensures
        b == occurs_at(hay@, pat@, i as int),
{
    if pat.len() > hay.len() || i > hay.len() - pat.len() {
        return false;
    }
    let mut j: usize = 0;
    while j < pat.len()
        invariant
            i + pat.len() <= hay.len(),
            j <= pat.len(),
            forall|k: int| 0 <= k < j ==> hay@[i + k] == pat@[k],
        decreases pat.len() - j,
    {
        if hay[i + j] != pat[j] {
            assert(hay@.subrange(i as int, i + pat.len())[j as int] != pat@[j as int]);
            return false;
        }
        j += 1;
    }
    assert(hay@.subrange(i as int, i + pat.len()) =~= pat@);
    true
}

/// The first index at or after `from` where `pat` occurs in `hay`.
pub fn find_chars(hay: &Vec<char>, pat: &Vec<char>, from: usize) -> (r: Option<usize>)
    ensures
        match r {
            Some(k) => find_from(hay@, pat@, from as int) == Some(k as int),
            None => find_from(hay@, pat@, from as int) is None,
        },
{
    if pat.len() > hay.len() {
        return None;
    }
    let last = hay.len() - pat.len();
    let mut i = from;
    while i <= last
        invariant
            last == hay.len() - pat.len(),
            from <= i,
            find_from(hay@, pat@, from as int) == find_from(hay@, pat@, i as int),
        decreases last + 1 - i,
    {
        if matches_at(hay, pat, i) {
            return Some(i);
        }
        if i == last {
            assert(find_from(hay@, pat@, i + 1) is None);
            return None;
        }
        i += 1;
    }
    None
}

/// Whether `pat` occurs in `hay`.
pub fn str_contains(hay: &str, pat: &str) -> (b: bool)
    ensures
        b == contains_seq(hay@, pat@),
{
    let h = chars_of(hay);
    let p = chars_of(pat);
    let r = find_chars(&h, &p, 0);
    proof {
        lemma_find_from(hay@, pat@, 0);
    }
    r.is_some()
}

/// Whether `hay` begins with `pat`.
pub fn str_starts_with(hay: &str, pat: &str) -> (b: bool)
    ensures
        b == starts_with_seq(hay@, pat@),
{
    let h = chars_of(hay);
    let p = chars_of(pat);
    matches_at(&h, &p, 0)
}

} // verus!
