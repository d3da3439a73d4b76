//! Character-level text scanning: substring search, whitespace trimming,
//! line splitting and prefix tests, with full functional contracts over
//! `Seq<char>` views.

use vstd::prelude::*;

verus! {

/// The first index `>= i` at which `pat` occurs in `s`, if any.
pub open spec fn spec_find_from(s: Seq<char>, pat: Seq<char>, i: int) -> Option<int>
    decreases s.len() - i + 1,
{
    if i < 0 || i + pat.len() > s.len() {
        None
    } else if s.subrange(i, i + pat.len()) == pat {
        Some(i)
    } else {
        spec_find_from(s, pat, i + 1)
    }
}

/// The first occurrence of `pat` in `s`, if any.
pub open spec fn spec_find(s: Seq<char>, pat: Seq<char>) -> Option<int> {
    spec_find_from(s, pat, 0)
}

/// Search for the first occurrence of `pat` in `s`, by character index.
pub fn find_sub(s: &str, pat: &str) -> (r: Option<usize>)
    ensures
        match r {
            Some(i) => spec_find(s@, pat@) == Some(i as int),
            None => spec_find(s@, pat@) is None,
        },
{
    let s_len = s.unicode_len();
    let pat_len = pat.unicode_len();
    if pat_len > s_len {
        return None;
    }
    if pat_len == 0 {
        proof {
            assert(s@.subrange(0, 0) =~= pat@);
        }
        return Some(0);
    }
    let mut i: usize = 0;
    while i <= s_len - pat_len
        invariant
            0 <= i <= s_len - pat_len + 1,
            1 <= pat_len <= s_len,
            s_len == s@.len(),
            pat_len == pat@.len(),
            spec_find(s@, pat@) == spec_find_from(s@, pat@, i as int),
        decreases s_len - i,
    {
        let mut j: usize = 0;
        let mut matched = true;
        proof {
            assert(s@.subrange(i as int, i as int) =~= pat@.subrange(0, 0));
        }
        while j < pat_len && matched
            invariant
                0 <= j <= pat_len,
                i + pat_len <= s_len,
                s_len == s@.len(),
                pat_len == pat@.len(),
                matched ==> s@.subrange(i as int, i + j) == pat@.subrange(0, j as int),
                !matched ==> s@.subrange(i as int, i + pat@.len() as int) != pat@,
            decreases pat_len - j, (if matched {
                1int
            } else {
                0int
            }),
        {
            let sc = s.get_char(i + j);
            let pc = pat.get_char(j);
            if sc != pc {
                proof {
                    assert(s@.subrange(i as int, i + pat@.len())[j as int] == s@[i + j]);
                    assert(s@.subrange(i as int, i + pat@.len()) != pat@);
                }
                matched = false;
            } else {
                proof {
                    assert(s@.subrange(i as int, i + j + 1) =~= pat@.subrange(0, j + 1));
                }
                j = j + 1;
            }
        }
        if matched {
            proof {
                assert(pat@.subrange(0, pat@.len() as int) =~= pat@);
                assert(s@.subrange(i as int, i + pat@.len()) == pat@);
            }
            return Some(i);
        }
        proof {
            assert(spec_find_from(s@, pat@, i as int) == spec_find_from(s@, pat@, i + 1));
        }
        i = i + 1;
    }
    proof {
        assert(spec_find_from(s@, pat@, i as int) is None);
    }
    None
}

/// Where a pattern found from `i` can lie.
pub proof fn lemma_find_from_bounds(s: Seq<char>, pat: Seq<char>, i: int)
    ensures
        spec_find_from(s, pat, i) matches Some(j) ==> i <= j && 0 <= j && j + pat.len() <= s.len(),
    decreases s.len() - i + 1,
{
    if !(i < 0 || i + pat.len() > s.len()) {
        if s.subrange(i, i + pat.len()) == pat {
        } else {
            lemma_find_from_bounds(s, pat, i + 1);
        }
    }
}

/// Search for the first occurrence of the character `c` in `s`.
pub fn find_char(s: &str, c: char) -> (r: Option<usize>)
    ensures
        match r {
            Some(i) => spec_find(s@, seq![c]) == Some(i as int),
            None => spec_find(s@, seq![c]) is None,
        },
{
    let s_len = s.unicode_len();
    let mut i: usize = 0;
    while i < s_len
        invariant
            0 <= i <= s_len,
            s_len == s@.len(),
            spec_find(s@, seq![c]) == spec_find_from(s@, seq![c], i as int),
        decreases s_len - i,
    {
        let sc = s.get_char(i);
        if sc == c {
            proof {
                assert(s@.subrange(i as int, i + 1) =~= seq![c]);
            }
            return Some(i);
        }
        proof {
            assert(s@.subrange(i as int, i + 1)[0] == sc);
            assert(s@.subrange(i as int, i + 1) != seq![c]);
            assert(spec_find_from(s@, seq![c], i as int) == spec_find_from(s@, seq![c], i + 1));
        }
        i = i + 1;
    }
    proof {
        assert(spec_find_from(s@, seq![c], i as int) is None);
    }
    None
}

/// The characters with Unicode's `White_Space` property: what `trim`
/// removes from the ends of a string.
pub open spec fn is_space(c: char) -> bool {
    let n = c as int;
    ||| n == 0x9
    ||| n == 0xA
    ||| n == 0xB
    ||| n == 0xC
    ||| n == 0xD
    ||| n == 0x20
    ||| n == 0x85
    ||| n == 0xA0
    ||| n == 0x1680
    ||| (0x2000 <= n && n <= 0x200A)
    ||| n == 0x2028
    ||| n == 0x2029
    ||| n == 0x202F
    ||| n == 0x205F
    ||| n == 0x3000
}

/// Executable test for [`is_space`].
pub fn is_space_char(c: char) -> (r: bool)
    ensures
        r == is_space(c),
{
    let n = c as u32;
    n == 0x9 || n == 0xA || n == 0xB || n == 0xC || n == 0xD || n == 0x20 || n == 0x85 || n == 0xA0
        || n == 0x1680 || (0x2000 <= n && n <= 0x200A) || n == 0x2028 || n == 0x2029 || n == 0x202F
        || n == 0x205F || n == 0x3000
}

/// How many whitespace characters `s` begins with.
pub open spec fn first_non_space(s: Seq<char>) -> int
    decreases s.len(),
{
    if s.len() == 0 {
        0
    } else if is_space(s[0]) {
        1 + first_non_space(s.subrange(1, s.len() as int))
    } else {
        0
    }
}

/// One past the last non-whitespace character of `s` (0 when all of `s` is
/// whitespace).
pub open spec fn last_non_space_end(s: Seq<char>) -> int
    decreases s.len(),
{
    if s.len() == 0 {
        0
    } else if is_space(s[s.len() - 1]) {
        last_non_space_end(s.subrange(0, s.len() - 1))
    } else {
        s.len() as int
    }
}

/// `s` without leading and trailing whitespace.
pub open spec fn spec_trim(s: Seq<char>) -> Seq<char> {
    let a = first_non_space(s);
    let b = last_non_space_end(s);
    if a < b {
        s.subrange(a, b)
    } else {
        Seq::empty()
    }
}

/// Remove leading and trailing whitespace.
pub fn trim_str<'a>(s: &'a str) -> (r: &'a str)
    ensures
        r@ == spec_trim(s@),
{
    let len = s.unicode_len();
    proof {
        assert(s@.subrange(0, len as int) =~= s@);
    }
    let mut i: usize = 0;
    while i < len && is_space_char(s.get_char(i))
        invariant
            0 <= i <= len,
            len == s@.len(),
            first_non_space(s@) == i + first_non_space(s@.subrange(i as int, len as int)),
        decreases len - i,
    {
        proof {
            assert(s@.subrange(i as int, len as int)[0] == s@[i as int]);
            assert(s@.subrange(i as int, len as int).subrange(1, len - i) =~= s@.subrange(
                i + 1,
                len as int,
            ));
        }
        i = i + 1;
    }
    proof {
        if i < len {
            assert(s@.subrange(i as int, len as int)[0] == s@[i as int]);
        }
        assert(first_non_space(s@) == i as int);
    }
    let mut j: usize = len;
    while j > 0 && is_space_char(s.get_char(j - 1))
        invariant
            0 <= j <= len,
            len == s@.len(),
            last_non_space_end(s@) == last_non_space_end(s@.subrange(0, j as int)),
        decreases j,
    {
        proof {
            assert(s@.subrange(0, j as int)[j - 1] == s@[j - 1]);
            assert(s@.subrange(0, j as int).subrange(0, j - 1) =~= s@.subrange(0, j - 1));
        }
        j = j - 1;
    }
    proof {
        if j > 0 {
            assert(s@.subrange(0, j as int)[j - 1] == s@[j - 1]);
        }
        assert(last_non_space_end(s@) == j as int);
    }
    if i < j {
        s.substring_char(i, j)
    } else {
        proof {
            reveal_strlit("");
        }
        ""
    }
}

/// `p` is a prefix of `s`.
pub open spec fn spec_has_prefix(s: Seq<char>, p: Seq<char>) -> bool {
    p.len() <= s.len() && s.subrange(0, p.len() as int) == p
}

/// Test whether `s` starts with `p`.
pub fn starts_with_str(s: &str, p: &str) -> (r: bool)
    ensures
        r == spec_has_prefix(s@, p@),
{
    let s_len = s.unicode_len();
    let p_len = p.unicode_len();
    if p_len > s_len {
        return false;
    }
    let mut j: usize = 0;
    while j < p_len
        invariant
            0 <= j <= p_len,
            p_len <= s_len,
            s_len == s@.len(),
            p_len == p@.len(),
            s@.subrange(0, j as int) == p@.subrange(0, j as int),
        decreases p_len - j,
    {
        let sc = s.get_char(j);
        let pc = p.get_char(j);
        if sc != pc {
            proof {
                assert(s@.subrange(0, p@.len() as int)[j as int] == sc);
                assert(s@.subrange(0, p@.len() as int) != p@);
            }
            return false;
        }
        proof {
            assert(s@.subrange(0, j + 1) =~= p@.subrange(0, j + 1));
        }
        j = j + 1;
    }
    proof {
        assert(s@.subrange(0, p@.len() as int) =~= p@.subrange(0, p@.len() as int));
        assert(p@.subrange(0, p@.len() as int) =~= p@);
    }
    true
}

/// A line with a trailing carriage return removed, as `str::lines` does.
pub open spec fn strip_cr(l: Seq<char>) -> Seq<char> {
    if l.len() > 0 && l[l.len() - 1] == '\r' {
        l.subrange(0, l.len() - 1)
    } else {
        l
    }
}

/// The lines of `s`, split on `'\n'` with a trailing `'\r'` removed from
/// each, and no empty line after a final newline — the semantics of
/// `str::lines`.
pub open spec fn spec_lines(s: Seq<char>) -> Seq<Seq<char>>
    decreases s.len(),
    via spec_lines_decreases
{
    if s.len() == 0 {
        Seq::empty()
    } else {
        match spec_find(s, seq!['\n']) {
            Some(i) => seq![strip_cr(s.subrange(0, i))] + spec_lines(
                s.subrange(i + 1, s.len() as int),
            ),
            None => seq![strip_cr(s)],
        }
    }
}

#[via_fn]
proof fn spec_lines_decreases(s: Seq<char>) {
    lemma_find_from_bounds(s, seq!['\n'], 0);
}

/// The views of a vector of strings.
pub open spec fn views_of(v: Seq<String>) -> Seq<Seq<char>> {
    v.map_values(|l: String| l@)
}

/// Remove a trailing carriage return, if present.
fn strip_cr_str<'a>(l: &'a str) -> (r: &'a str)
    ensures
        r@ == strip_cr(l@),
{
    let n = l.unicode_len();
    if n > 0 && l.get_char(n - 1) == '\r' {
        l.substring_char(0, n - 1)
    } else {
        l
    }
}

/// Split `s` into its lines, as `str::lines` does.
pub fn split_lines(s: &str) -> (r: Vec<String>)
    ensures
        views_of(r@) == spec_lines(s@),
{
    let len = s.unicode_len();
    let mut out: Vec<String> = Vec::new();
    let mut pos: usize = 0;
    proof {
        assert(s@.subrange(0, len as int) =~= s@);
        assert(views_of(out@) =~= Seq::<Seq<char>>::empty());
    }
    while pos < len
        invariant
            0 <= pos <= len,
            len == s@.len(),
            views_of(out@) + spec_lines(s@.subrange(pos as int, len as int)) == spec_lines(s@),
        decreases len - pos,
    {
        let rest = s.substring_char(pos, len);
        let ghost rest_view = s@.subrange(pos as int, len as int);
        match find_char(rest, '\n') {
            Some(k) => {
                proof {
                    lemma_find_from_bounds(rest_view, seq!['\n'], 0);
                }
                let line = strip_cr_str(rest.substring_char(0, k));
                let owned = String::from_str(line);
                let ghost prev = out@;
                out.push(owned);
                proof {
                    assert(rest_view.subrange(k + 1, rest_view.len() as int) =~= s@.subrange(
                        pos + k + 1,
                        len as int,
                    ));
                    assert(views_of(out@) =~= views_of(prev).push(line@));
                    assert(views_of(out@) + spec_lines(s@.subrange(pos + k + 1, len as int))
                        =~= spec_lines(s@));
                }
                pos = pos + k + 1;
            },
            None => {
                let line = strip_cr_str(rest);
                let owned = String::from_str(line);
                let ghost prev = out@;
                out.push(owned);
                proof {
                    assert(spec_lines(rest_view) =~= seq![strip_cr(rest_view)]);
                    assert(views_of(out@) =~= views_of(prev).push(line@));
                    assert(s@.subrange(len as int, len as int) =~= Seq::<char>::empty());
                    assert(views_of(out@) + spec_lines(s@.subrange(len as int, len as int))
                        =~= spec_lines(s@));
                }
                pos = len;
            },
        }
    }
    proof {
        assert(s@.subrange(pos as int, len as int) =~= Seq::<char>::empty());
        assert(views_of(out@) =~= spec_lines(s@));
    }
    out
}

} // verus!
