use vstd::prelude::*;

verus! {

/// The characters of Unicode's `White_Space` property.
pub open spec fn is_space(c: char) -> bool {
    c == ' ' || ('\t' <= c && c <= '\r') || c == '\u{85}' || c == '\u{a0}' || c == '\u{1680}'
        || ('\u{2000}' <= c && c <= '\u{200a}') || c == '\u{2028}' || c == '\u{2029}'
        || c == '\u{202f}' || c == '\u{205f}' || c == '\u{3000}'
}

/// `s` with every maximal run of whitespace replaced by one `-`.
pub open spec fn hyphenate(s: Seq<char>) -> Seq<char>
    decreases s.len(),
{
    if s.len() == 0 {
        Seq::empty()
    } else {
        let p = s.drop_last();
        if !is_space(s.last()) {
            hyphenate(p).push(s.last())
        } else if p.len() > 0 && is_space(p.last()) {
            hyphenate(p)
        } else {
            hyphenate(p).push('-')
        }
    }
}

/// What `str::to_lowercase` returns for the given characters.
pub uninterp spec fn lower_of(s: Seq<char>) -> Seq<char>;

/// Relies on `str::to_lowercase`: the lower-case form of the text, which
/// depends on its characters alone.
#[verifier::external_body]
fn lowercase(s: &str) -> (r: String)
    ensures
        r@ == lower_of(s@),
{
    s.to_lowercase()
}

pub fn is_space_char(c: char) -> (r: bool)
    ensures
        r == is_space(c),
{
    c == ' ' || ('\t' <= c && c <= '\r') || c == '\u{85}' || c == '\u{a0}' || c == '\u{1680}'
        || ('\u{2000}' <= c && c <= '\u{200a}') || c == '\u{2028}' || c == '\u{2029}'
        || c == '\u{202f}' || c == '\u{205f}' || c == '\u{3000}'
}

/// Replaces each run of whitespace in `s` by a single hyphen.
pub fn hyphenate_spaces(s: &str) -> (r: String)
    ensures
        r@ == hyphenate(s@),
{
    let n = s.unicode_len();
    let mut out = String::new();
    let mut prev_space = false;
    let mut i: usize = 0;
    while i < n
        invariant
            n == s@.len(),
            i <= n,
            out@ == hyphenate(s@.subrange(0, i as int)),
            prev_space == (i > 0 && is_space(s@[i - 1])),
        decreases n - i,
    {
        let c = s.get_char(i);
        let space = is_space_char(c);
        proof {
            let t = s@.subrange(0, i + 1);
            assert(t.drop_last() =~= s@.subrange(0, i as int));
            assert(t.last() == c);
        }
        if !space {
            out.append(s.substring_char(i, i + 1));
        } else if !prev_space {
            out.append("-");
            proof {
                reveal_strlit("-");
            }
        }
        proof {
            let t = s@.subrange(0, i + 1);
            let p = s@.subrange(0, i as int);
            if !space {
                assert(s@.subrange(i as int, i + 1) =~= seq![c]);
            }
            if i > 0 {
                assert(p.last() == s@[i - 1]);
            }
        }
        prev_space = space;
        i = i + 1;
    }
    assert(s@.subrange(0, n as int) =~= s@);
    out
}

/// A file-system friendly identifier for a display name: the name in lower
/// case, with each run of whitespace replaced by one hyphen. Different names
/// may give the same identifier.
pub fn suggested_filename(name: &str) -> (r: String)
    ensures
        r@ == hyphenate(lower_of(name@)),
{
    let lower = lowercase(name);
    hyphenate_spaces(lower.as_str())
}

} // verus!
