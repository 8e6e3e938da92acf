//! Character-level string utilities: equality, substring search, and
//! prefix tests, each proved against a spec-level definition.

use vstd::prelude::*;

verus! {

/// True when `p` is a prefix of `l`.
pub open spec fn starts_with(l: Seq<char>, p: Seq<char>) -> bool {
    p.len() <= l.len() && l.take(p.len() as int) == p
}

/// The least index at which `pat` occurs as a contiguous subsequence of `s`,
/// or `None` when it occurs nowhere.
pub open spec fn find_sub(s: Seq<char>, pat: Seq<char>) -> Option<int>
    decreases s.len(),
{
    if pat.len() > s.len() {
        Option::None
    } else if s.take(pat.len() as int) == pat {
        Option::Some(0)
    } else if s.len() == pat.len() {
        Option::None
    } else {
        match find_sub(s.skip(1), pat) {
            Option::Some(j) => Option::Some(j + 1),
            Option::None => Option::None,
        }
    }
}

/// `find_sub` returns the first match: a `Some(i)` marks an occurrence with
/// none before it, and `None` means no occurrence at all.
pub proof fn lemma_find_sub_props(s: Seq<char>, pat: Seq<char>)
    ensures
        match find_sub(s, pat) {
            Option::Some(i) => 0 <= i && i + pat.len() <= s.len() && s.subrange(
                i,
                i + pat.len() as int,
            ) == pat && forall|k: int|
                0 <= k < i ==> #[trigger] s.subrange(k, k + pat.len() as int) != pat,
            Option::None => forall|k: int|
                0 <= k && k + pat.len() <= s.len() ==> #[trigger] s.subrange(k, k + pat.len() as int)
                    != pat,
        },
    decreases s.len(),
{
    let p = pat.len() as int;
    if p > s.len() {
    } else if s.take(p) == pat {
        assert(s.subrange(0, p) == s.take(p));
    } else if s.len() == p {
        assert forall|k: int| 0 <= k && k + p <= s.len() implies #[trigger] s.subrange(k, k + p)
            != pat by {
            assert(k == 0);
            assert(s.subrange(0, p) == s.take(p));
        }
    } else {
        lemma_find_sub_props(s.skip(1), pat);
        assert forall|k: int| 1 <= k && k + p <= s.len() implies #[trigger] s.subrange(k, k + p)
            == s.skip(1).subrange(k - 1, k - 1 + p) by {
            assert(s.subrange(k, k + p) =~= s.skip(1).subrange(k - 1, k - 1 + p));
        }
        match find_sub(s.skip(1), pat) {
            Option::Some(j) => {
                assert(s.subrange(j + 1, j + 1 + p) == pat);
                assert forall|k: int| 0 <= k < j + 1 implies #[trigger] s.subrange(k, k + p)
                    != pat by {
                    if k == 0 {
                        assert(s.subrange(0, p) == s.take(p));
                    } else {
                        assert(s.skip(1).subrange(k - 1, k - 1 + p) != pat);
                    }
                }
            },
            Option::None => {
                assert forall|k: int| 0 <= k && k + p <= s.len() implies #[trigger] s.subrange(
                    k,
                    k + p,
                ) != pat by {
                    if k == 0 {
                        assert(s.subrange(0, p) == s.take(p));
                    } else {
                        assert(s.skip(1).subrange(k - 1, k - 1 + p) != pat);
                    }
                }
            },
        }
    }
}

/// Character-for-character equality of two string slices.
pub fn str_eq(a: &str, b: &str) -> (r: bool)
    ensures
        r == (a@ == b@),
{
    let n = a.unicode_len();
    let m = b.unicode_len();
    if n != m {
        return false;
    }
    let mut i: usize = 0;
    while i < n
        invariant
            i <= n,
            n == a@.len(),
            n == b@.len(),
            forall|k: int| 0 <= k < i ==> a@[k] == b@[k],
        decreases n - i,
    {
        if a.get_char(i) != b.get_char(i) {
            return false;
        }
        i += 1;
    }
    proof {
        assert(a@ =~= b@);
    }
    true
}

/// Whether `pat@` occurs in `s@` starting at index `i`.
fn match_at(s: &str, pat: &str, i: usize, n: usize, m: usize) -> (r: bool)
    requires
        n == s@.len(),
        m == pat@.len(),
        i + m <= n,
    ensures
        r == (s@.subrange(i as int, i + m) == pat@),
{
    let mut j: usize = 0;
    while j < m
        invariant
            j <= m,
            n == s@.len(),
            m == pat@.len(),
            i + m <= n,
            forall|k: int| 0 <= k < j ==> s@[i + k] == pat@[k],
        decreases m - j,
    {
        if s.get_char(i + j) != pat.get_char(j) {
            proof {
                assert(s@.subrange(i as int, i + m)[j as int] == s@[i + j]);
            }
            return false;
        }
        j += 1;
    }
    proof {
        assert(s@.subrange(i as int, i + m) =~= pat@);
    }
    true
}

/// The first occurrence of `pat` in `s`, by character index.
pub fn find_sub_str(s: &str, pat: &str) -> (r: Option<usize>)
    ensures
        r matches Some(i) ==> find_sub(s@, pat@) == Option::Some(i as int),
        r is None ==> find_sub(s@, pat@) is None,
{
    let n = s.unicode_len();
    let m = pat.unicode_len();
    proof {
        lemma_find_sub_props(s@, pat@);
    }
    if m > n {
        return None;
    }
    if m == 0 {
        proof {
            assert(s@.take(0) =~= pat@);
        }
        return Some(0);
    }
    let count = n - m + 1;
    let mut i: usize = 0;
    while i < count
        invariant
            1 <= m <= n,
            n == s@.len(),
            m == pat@.len(),
            count == n - m + 1,
            i <= count,
            forall|k: int| 0 <= k < i ==> #[trigger] s@.subrange(k, k + m) != pat@,
        decreases count - i,
    {
        if match_at(s, pat, i, n, m) {
            proof {
                lemma_find_sub_props(s@, pat@);
                let pl = pat@.len() as int;
                assert(s@.subrange(i as int, i as int + pl) =~= s@.subrange(i as int, i + m));
                match find_sub(s@, pat@) {
                    Option::Some(fi) => {
                        if fi < i {
                            assert(s@.subrange(fi, fi + m) =~= s@.subrange(fi, fi + pl));
                            assert(s@.subrange(fi, fi + m) != pat@);
                            assert(s@.subrange(fi, fi + pl) == pat@);
                        } else if fi > i {
                            assert(s@.subrange(i as int, i as int + pl) != pat@);
                        }
                    },
                    Option::None => {
                        assert(s@.subrange(i as int, i as int + pl) != pat@);
                    },
                }
            }
            return Some(i);
        }
        i += 1;
    }
    proof {
        lemma_find_sub_props(s@, pat@);
        let pl = pat@.len() as int;
        match find_sub(s@, pat@) {
            Option::Some(fi) => {
                assert(s@.subrange(fi, fi + pl) == pat@);
                assert(s@.subrange(fi, fi + m) =~= s@.subrange(fi, fi + pl));
                assert(s@.subrange(fi, fi + m) != pat@);
            },
            Option::None => {},
        }
    }
    None
}

} // verus!
