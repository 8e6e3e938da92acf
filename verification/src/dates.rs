//! The date-cleaning transform: every HTML comment (`<!--` up to the next
//! `-->`, taken non-greedily and scanning left to right) is removed from the
//! raw date text, and the result is trimmed of surrounding whitespace.

use vstd::prelude::*;

use crate::text::find_sub;
use crate::text::find_sub_str;
use crate::text::lemma_find_sub_props;

verus! {

/// The characters that trimming removes: the Unicode white-space set.
pub open spec fn is_space(c: char) -> bool {
    c == ' ' || c == '\t' || c == '\n' || c == '\r' || c == '\u{b}' || c == '\u{c}' || c
        == '\u{85}' || c == '\u{a0}' || c == '\u{1680}' || ('\u{2000}' <= c && c <= '\u{200a}') || c
        == '\u{2028}' || c == '\u{2029}' || c == '\u{202f}' || c == '\u{205f}' || c == '\u{3000}'
}

pub open spec fn trim_start_spec(s: Seq<char>) -> Seq<char>
    decreases s.len(),
{
    if s.len() > 0 && is_space(s[0]) {
        trim_start_spec(s.skip(1))
    } else {
        s
    }
}

pub open spec fn trim_end_spec(s: Seq<char>) -> Seq<char>
    decreases s.len(),
{
    if s.len() > 0 && is_space(s.last()) {
        trim_end_spec(s.take(s.len() - 1))
    } else {
        s
    }
}

/// What `str::trim` leaves: the text without leading and trailing whitespace.
pub open spec fn trim_spec(s: Seq<char>) -> Seq<char> {
    trim_end_spec(trim_start_spec(s))
}

/// The text with every comment removed, scanning left to right: at the first
/// `<!--` that has a later `-->`, everything from the opener through the
/// nearest closer goes, and scanning resumes after the removed stretch.
pub open spec fn strip_comments_spec(s: Seq<char>) -> Seq<char>
    decreases s.len(),
{
    match find_sub(s, "<!--"@) {
        Option::Some(i) => {
            let a = i + "<!--"@.len();
            if 0 <= i && a <= s.len() {
                match find_sub(s.skip(a), "-->"@) {
                    Option::Some(j) => {
                        let b = a + j + "-->"@.len();
                        if 0 <= j && 0 < b <= s.len() {
                            s.take(i) + strip_comments_spec(s.skip(b))
                        } else {
                            s
                        }
                    },
                    Option::None => s,
                }
            } else {
                s
            }
        },
        Option::None => s,
    }
}

/// Whether the text still holds a complete comment, an `<!--` followed
/// somewhere later by `-->`.
pub open spec fn has_comment(s: Seq<char>) -> bool {
    match find_sub(s, "<!--"@) {
        Option::Some(i) => find_sub(s.skip(i + "<!--"@.len()), "-->"@) is Some,
        Option::None => false,
    }
}

/// The whole transform: comments removed, then whitespace trimmed.
pub open spec fn cleaned_spec(s: Seq<char>) -> Seq<char> {
    trim_spec(strip_comments_spec(s))
}

pub proof fn lemma_strip_no_comment(s: Seq<char>)
    requires
        !has_comment(s),
    ensures
        strip_comments_spec(s) == s,
{
}

/// A trimmed text starts with a non-space character, unless it is empty.
proof fn lemma_trim_start_first(s: Seq<char>)
    ensures
        trim_start_spec(s).len() > 0 ==> !is_space(trim_start_spec(s)[0]),
    decreases s.len(),
{
    if s.len() > 0 && is_space(s[0]) {
        lemma_trim_start_first(s.skip(1));
    }
}

/// A trimmed text ends with a non-space character, unless it is empty.
proof fn lemma_trim_end_last(s: Seq<char>)
    ensures
        trim_end_spec(s).len() > 0 ==> !is_space(trim_end_spec(s).last()),
    decreases s.len(),
{
    if s.len() > 0 && is_space(s.last()) {
        lemma_trim_end_last(s.take(s.len() - 1));
    }
}

/// Trimming from the end only removes characters at the end: the result is a
/// prefix of the input.
proof fn lemma_trim_end_prefix(s: Seq<char>)
    ensures
        trim_end_spec(s).len() <= s.len(),
        trim_end_spec(s) == s.take(trim_end_spec(s).len() as int),
    decreases s.len(),
{
    if s.len() > 0 && is_space(s.last()) {
        lemma_trim_end_prefix(s.take(s.len() - 1));
        let t = trim_end_spec(s);
        assert(s.take(s.len() - 1).take(t.len() as int) =~= s.take(t.len() as int));
    } else {
        assert(s.take(s.len() as int) =~= s);
    }
}

/// Trimming twice is the same as trimming once.
pub proof fn lemma_trim_idempotent(s: Seq<char>)
    ensures
        trim_spec(trim_spec(s)) == trim_spec(s),
{
    let u = trim_start_spec(s);
    let v = trim_end_spec(u);
    lemma_trim_start_first(s);
    lemma_trim_end_prefix(u);
    lemma_trim_end_last(u);
    if v.len() > 0 {
        assert(v[0] == u[0]);
        assert(trim_start_spec(v) == v);
    }
    assert(trim_start_spec(v) == v);
    assert(trim_end_spec(v) == v);
}

/// The transform is idempotent wherever one pass leaves no complete comment
/// behind. (Removing a comment can splice its neighbours into a new `<!--`
/// ... `-->` pair; a second pass would remove that one too, so such texts
/// are left out.)
pub proof fn lemma_clean_date_idempotent(s: Seq<char>)
    requires
        !has_comment(cleaned_spec(s)),
    ensures
        cleaned_spec(cleaned_spec(s)) == cleaned_spec(s),
{
    lemma_strip_no_comment(cleaned_spec(s));
    lemma_trim_idempotent(strip_comments_spec(s));
}

/// On text with no `<!--` at all, the transform only trims.
pub proof fn lemma_clean_no_marker(s: Seq<char>)
    requires
        find_sub(s, "<!--"@) is None,
    ensures
        cleaned_spec(s) == trim_spec(s),
{
}

fn is_space_exec(c: char) -> (r: bool)
    ensures
        r == is_space(c),
{
    c == ' ' || c == '\t' || c == '\n' || c == '\r' || c == '\u{b}' || c == '\u{c}' || c
        == '\u{85}' || c == '\u{a0}' || c == '\u{1680}' || ('\u{2000}' <= c && c <= '\u{200a}') || c
        == '\u{2028}' || c == '\u{2029}' || c == '\u{202f}' || c == '\u{205f}' || c == '\u{3000}'
}

/// Removes leading and trailing whitespace, as `str::trim` does.
pub fn trim_str(s: &str) -> (r: String)
    ensures
        r@ == trim_spec(s@),
{
    let n = s.unicode_len();
    proof {
        assert(s@.skip(0) =~= s@);
    }
    let mut lo: usize = 0;
    while lo < n && is_space_exec(s.get_char(lo))
        invariant
            lo <= n,
            n == s@.len(),
            trim_start_spec(s@) == trim_start_spec(s@.skip(lo as int)),
        decreases n - lo,
    {
        proof {
            assert(s@.skip(lo as int)[0] == s@[lo as int]);
            assert(s@.skip(lo as int).skip(1) =~= s@.skip(lo + 1));
        }
        lo += 1;
    }
    proof {
        if lo == n {
            assert(s@.skip(lo as int) =~= Seq::<char>::empty());
        } else {
            assert(s@.skip(lo as int)[0] == s@[lo as int]);
        }
        assert(trim_start_spec(s@) == s@.skip(lo as int));
    }
    proof {
        assert(s@.subrange(lo as int, n as int) =~= s@.skip(lo as int));
    }
    let mut hi: usize = n;
    while hi > lo && is_space_exec(s.get_char(hi - 1))
        invariant
            lo <= hi <= n,
            n == s@.len(),
            trim_start_spec(s@) == s@.skip(lo as int),
            trim_spec(s@) == trim_end_spec(s@.subrange(lo as int, hi as int)),
        decreases hi,
    {
        proof {
            let t = s@.subrange(lo as int, hi as int);
            assert(t.last() == s@[hi - 1]);
            assert(t.take(t.len() - 1) =~= s@.subrange(lo as int, hi - 1));
        }
        hi -= 1;
    }
    proof {
        let t = s@.subrange(lo as int, hi as int);
        if hi > lo {
            assert(t.last() == s@[hi - 1]);
        }
        assert(trim_end_spec(t) == t);
    }
    let r = s.substring_char(lo, hi);
    r.to_owned()
}

/// Removes every complete comment, scanning left to right.
pub fn strip_comments(s: &str) -> (r: String)
    ensures
        r@ == strip_comments_spec(s@),
{
    let mut acc = String::new();
    let mut rest = s.to_owned();
    loop
        invariant
            strip_comments_spec(s@) == acc@ + strip_comments_spec(rest@),
        decreases rest@.len(),
    {
        let n = rest.as_str().unicode_len();
        let open_at = find_sub_str(rest.as_str(), "<!--");
        match open_at {
            Option::None => {
                acc.append(rest.as_str());
                proof {
                    assert(strip_comments_spec(rest@) == rest@);
                }
                return acc;
            },
            Option::Some(i) => {
                proof {
                    lemma_find_sub_props(rest@, "<!--"@);
                    reveal_strlit("<!--");
                }
                let tail = rest.as_str().substring_char(i + 4, n);
                let close_at = find_sub_str(tail, "-->");
                match close_at {
                    Option::None => {
                        acc.append(rest.as_str());
                        proof {
                            assert(tail@ =~= rest@.skip(i + 4));
                            assert(strip_comments_spec(rest@) == rest@);
                        }
                        return acc;
                    },
                    Option::Some(j) => {
                        proof {
                            lemma_find_sub_props(tail@, "-->"@);
                            reveal_strlit("-->");
                            assert(tail@ =~= rest@.skip(i + 4));
                        }
                        let b = i + 4 + j + 3;
                        acc.append(rest.as_str().substring_char(0, i));
                        let next = rest.as_str().substring_char(b, n).to_owned();
                        proof {
                            assert(rest@.subrange(0, i as int) =~= rest@.take(i as int));
                            assert(rest@.subrange(b as int, n as int) =~= rest@.skip(b as int));
                            assert(strip_comments_spec(rest@) == rest@.take(i as int)
                                + strip_comments_spec(rest@.skip(b as int)));
                        }
                        rest = next;
                    },
                }
            },
        }
    }
}

/// The date-cleaning transform: strip comments, then trim.
pub fn clean_date(s: &str) -> (r: String)
    ensures
        r@ == cleaned_spec(s@),
{
    let stripped = strip_comments(s);
    trim_str(stripped.as_str())
}

} // verus!
