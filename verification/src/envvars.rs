//! Environment-variable bookkeeping for the metadata injector and scanner:
//! `KEY=VALUE` pairs, comma-separated variable lists, variable-name files,
//! and the check of expected variables against a wheel's recorded metadata.

use vstd::prelude::*;

use crate::text::{find_char, lemma_find_from_bounds, spec_find, spec_lines, spec_trim,
    split_lines, trim_str, views_of};

verus! {

/// Split `KEY=VALUE` at the first `=`; without one, the parse fails with a
/// message naming the input.
pub fn parse_key_val(s: &str) -> (r: Result<(String, String), String>)
    ensures
        spec_find(s@, seq!['=']) matches Some(i) ==> (r matches Ok(kv) && kv.0@ == s@.subrange(
            0,
            i,
        ) && kv.1@ == s@.subrange(i + 1, s@.len() as int)),
        spec_find(s@, seq!['=']) is None ==> (r matches Err(m) && m@
            == "invalid KEY=value: no `=` found in `"@ + s@ + "`"@),
{
    match find_char(s, '=') {
        Some(pos) => {
            proof {
                lemma_find_from_bounds(s@, seq!['='], 0);
            }
            let len = s.unicode_len();
            let key = String::from_str(s.substring_char(0, pos));
            let value = String::from_str(s.substring_char(pos + 1, len));
            Ok((key, value))
        },
        None => {
            let msg = String::from_str("invalid KEY=value: no `=` found in `").concat(s).concat(
                "`",
            );
            Err(msg)
        },
    }
}

/// `name` prepended to `rest` unless it is empty.
pub open spec fn cons_nonempty(name: Seq<char>, rest: Seq<Seq<char>>) -> Seq<Seq<char>> {
    if name.len() == 0 {
        rest
    } else {
        seq![name] + rest
    }
}

/// The names in a comma-separated list: split on `,`, trim each piece, drop
/// the empty ones.
pub open spec fn spec_comma_names(s: Seq<char>) -> Seq<Seq<char>>
    decreases s.len(),
    via spec_comma_names_decreases
{
    match spec_find(s, seq![',']) {
        Some(i) => cons_nonempty(
            spec_trim(s.subrange(0, i)),
            spec_comma_names(s.subrange(i + 1, s.len() as int)),
        ),
        None => cons_nonempty(spec_trim(s), Seq::empty()),
    }
}

#[via_fn]
proof fn spec_comma_names_decreases(s: Seq<char>) {
    lemma_find_from_bounds(s, seq![','], 0);
}

/// Split a comma-separated list of variable names: each piece trimmed,
/// empty pieces dropped.
pub fn split_comma_names(s: &str) -> (r: Vec<String>)
    ensures
        views_of(r@) == spec_comma_names(s@),
{
    let len = s.unicode_len();
    let mut out: Vec<String> = Vec::new();
    let mut pos: usize = 0;
    let mut done = false;
    proof {
        assert(s@.subrange(0, len as int) =~= s@);
        assert(views_of(out@) =~= Seq::<Seq<char>>::empty());
    }
    while !done
        invariant
            0 <= pos <= len,
            len == s@.len(),
            !done ==> views_of(out@) + spec_comma_names(s@.subrange(pos as int, len as int))
                == spec_comma_names(s@),
            done ==> views_of(out@) == spec_comma_names(s@),
        decreases len - pos + 1, (if done {
            0int
        } else {
            1int
        }),
    {
        let rest = s.substring_char(pos, len);
        let ghost rest_view = s@.subrange(pos as int, len as int);
        match find_char(rest, ',') {
            Some(k) => {
                proof {
                    lemma_find_from_bounds(rest_view, seq![','], 0);
                }
                let piece = trim_str(rest.substring_char(0, k));
                if piece.unicode_len() > 0 {
                    let ghost prev = out@;
                    out.push(String::from_str(piece));
                    proof {
                        assert(views_of(out@) =~= views_of(prev).push(piece@));
                    }
                }
                proof {
                    assert(rest_view.subrange(k + 1, rest_view.len() as int) =~= s@.subrange(
                        pos + k + 1,
                        len as int,
                    ));
                    assert(views_of(out@) + spec_comma_names(s@.subrange(pos + k + 1, len as int))
                        =~= spec_comma_names(s@));
                }
                pos = pos + k + 1;
            },
            None => {
                let piece = trim_str(rest);
                if piece.unicode_len() > 0 {
                    let ghost prev = out@;
                    out.push(String::from_str(piece));
                    proof {
                        assert(views_of(out@) =~= views_of(prev).push(piece@));
                    }
                }
                proof {
                    assert(spec_comma_names(rest_view) =~= cons_nonempty(
                        spec_trim(rest_view),
                        Seq::empty(),
                    ));
                    assert(views_of(out@) =~= spec_comma_names(s@));
                }
                done = true;
            },
        }
    }
    out
}

/// The variable names in a names file: each line trimmed, with empty lines
/// and `#` comment lines dropped.
pub open spec fn spec_var_names(lines: Seq<Seq<char>>) -> Seq<Seq<char>>
    decreases lines.len(),
{
    if lines.len() == 0 {
        Seq::empty()
    } else {
        let t = spec_trim(lines[0]);
        let rest = spec_var_names(lines.subrange(1, lines.len() as int));
        if t.len() == 0 || t[0] == '#' {
            rest
        } else {
            seq![t] + rest
        }
    }
}

/// The variable names listed in the text of a names file: one name per
/// line, trimmed, skipping empty lines and `#` comments.
pub fn var_names_from_text(text: &str) -> (r: Vec<String>)
    ensures
        views_of(r@) == spec_var_names(spec_lines(text@)),
{
    let lines = split_lines(text);
    let n = lines.len();
    let ghost all = spec_lines(text@);
    let mut out: Vec<String> = Vec::new();
    proof {
        assert(views_of(lines@).subrange(0, n as int) =~= all);
        assert(views_of(out@) =~= Seq::<Seq<char>>::empty());
    }
    let mut idx: usize = 0;
    while idx < n
        invariant
            0 <= idx <= n,
            n == lines@.len(),
            all == spec_lines(text@),
            views_of(lines@) == all,
            views_of(out@) + spec_var_names(views_of(lines@).subrange(idx as int, n as int))
                == spec_var_names(all),
        decreases n - idx,
    {
        let line: &String = &lines[idx];
        let trimmed = trim_str(line.as_str());
        proof {
            assert(views_of(lines@).subrange(idx as int, n as int)[0] == line@);
            assert(views_of(lines@).subrange(idx as int, n as int).subrange(1, n - idx)
                =~= views_of(lines@).subrange(idx + 1, n as int));
        }
        let keep = if trimmed.unicode_len() == 0 {
            false
        } else {
            trimmed.get_char(0) != '#'
        };
        if keep {
            let ghost prev = out@;
            out.push(String::from_str(trimmed));
            proof {
                assert(views_of(out@) =~= views_of(prev).push(trimmed@));
                assert(views_of(out@) + spec_var_names(
                    views_of(lines@).subrange(idx + 1, n as int),
                ) =~= spec_var_names(all));
            }
        } else {
            proof {
                assert(views_of(out@) + spec_var_names(
                    views_of(lines@).subrange(idx + 1, n as int),
                ) =~= spec_var_names(all));
            }
        }
        idx = idx + 1;
    }
    proof {
        assert(views_of(lines@).subrange(idx as int, n as int) =~= Seq::<Seq<char>>::empty());
        assert(views_of(out@) =~= spec_var_names(all));
    }
    out
}

/// The views of a vector of string pairs.
pub open spec fn pair_views(v: Seq<(String, String)>) -> Seq<(Seq<char>, Seq<char>)> {
    v.map_values(|p: (String, String)| (p.0@, p.1@))
}

/// The value of the first pair carrying `key`, if any — the lookup a
/// key-ordered map of recorded variables answers.
pub open spec fn spec_env_lookup(pairs: Seq<(Seq<char>, Seq<char>)>, key: Seq<char>) -> Option<
    Seq<char>,
>
    decreases pairs.len(),
{
    if pairs.len() == 0 {
        None
    } else if pairs[0].0 == key {
        Some(pairs[0].1)
    } else {
        spec_env_lookup(pairs.subrange(1, pairs.len() as int), key)
    }
}

/// Look a variable up among recorded `(name, value)` pairs.
pub fn env_lookup(pairs: &Vec<(String, String)>, key: &String) -> (r: Option<String>)
    ensures
        match r {
            Some(v) => spec_env_lookup(pair_views(pairs@), key@) == Some(v@),
            None => spec_env_lookup(pair_views(pairs@), key@) is None,
        },
{
    let n = pairs.len();
    let ghost all = pair_views(pairs@);
    proof {
        assert(all.subrange(0, n as int) =~= all);
    }
    let mut idx: usize = 0;
    while idx < n
        invariant
            0 <= idx <= n,
            n == pairs@.len(),
            all == pair_views(pairs@),
            spec_env_lookup(all, key@) == spec_env_lookup(
                all.subrange(idx as int, n as int),
                key@,
            ),
        decreases n - idx,
    {
        proof {
            assert(all[idx as int] == (pairs@[idx as int].0@, pairs@[idx as int].1@));
            assert(all.subrange(idx as int, n as int)[0] == all[idx as int]);
            assert(all.subrange(idx as int, n as int).subrange(1, n - idx) =~= all.subrange(
                idx + 1,
                n as int,
            ));
        }
        if pairs[idx].0 == *key {
            proof {
                assert(spec_env_lookup(all.subrange(idx as int, n as int), key@) == Some(
                    all[idx as int].1,
                ));
            }
            return Some(pairs[idx].1.clone());
        }
        idx = idx + 1;
    }
    proof {
        assert(all.subrange(idx as int, n as int) =~= Seq::<(Seq<char>, Seq<char>)>::empty());
    }
    None
}

/// How many of the expected `(name, value)` pairs a recorded environment
/// misses or contradicts: a pair counts when its name is absent, or present
/// with a different value.
pub open spec fn spec_mismatch_count(
    meta: Seq<(Seq<char>, Seq<char>)>,
    expected: Seq<(Seq<char>, Seq<char>)>,
) -> int
    decreases expected.len(),
{
    if expected.len() == 0 {
        0
    } else {
        let here: int = match spec_env_lookup(meta, expected[0].0) {
            Some(v) => if v == expected[0].1 {
                0
            } else {
                1
            },
            None => 1,
        };
        here + spec_mismatch_count(meta, expected.subrange(1, expected.len() as int))
    }
}

/// Check the expected variables against the recorded environment of a
/// wheel's metadata: the count of missing or mismatched pairs (0 means all
/// match).
pub fn count_env_mismatches(metadata_env: &Vec<(String, String)>, expected: &Vec<(String, String)>) -> (r:
    usize)
    ensures
        r == spec_mismatch_count(pair_views(metadata_env@), pair_views(expected@)),
{
    let n = expected.len();
    let ghost meta = pair_views(metadata_env@);
    let ghost exp = pair_views(expected@);
    proof {
        assert(exp.subrange(0, n as int) =~= exp);
    }
    let mut num: usize = 0;
    let mut idx: usize = 0;
    while idx < n
        invariant
            0 <= idx <= n,
            num <= idx,
            n == expected@.len(),
            meta == pair_views(metadata_env@),
            exp == pair_views(expected@),
            spec_mismatch_count(meta, exp) == num + spec_mismatch_count(
                meta,
                exp.subrange(idx as int, n as int),
            ),
        decreases n - idx,
    {
        proof {
            assert(exp.subrange(idx as int, n as int)[0] == exp[idx as int]);
            assert(exp.subrange(idx as int, n as int).subrange(1, n - idx) =~= exp.subrange(
                idx + 1,
                n as int,
            ));
        }
        let miss = match env_lookup(metadata_env, &expected[idx].0) {
            Some(v) => if v == expected[idx].1 {
                0
            } else {
                1
            },
            None => 1,
        };
        num = num + miss;
        idx = idx + 1;
    }
    proof {
        assert(exp.subrange(idx as int, n as int) =~= Seq::<(Seq<char>, Seq<char>)>::empty());
    }
    num
}

} // verus!
