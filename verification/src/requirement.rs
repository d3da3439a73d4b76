//! Parsing of Python requirement strings (`Requires-Dist` lines of a wheel's
//! `METADATA` file): extracting a dependency name and its version
//! specifier.

use vstd::prelude::*;

use crate::text::{find_char, find_sub, spec_find, spec_has_prefix, spec_lines, spec_trim,
    split_lines, starts_with_str, trim_str, views_of};
use crate::text::lemma_find_from_bounds;

verus! {

/// A requirement split into the package name and the version specifier
/// (empty when the requirement names no version).
pub struct ParsedRequirement {
    pub name: String,
    pub version_spec: String,
}

/// Index of the version operator a requirement core is split at: the first
/// occurrence of the first operator, in the fixed search order
/// `>=  <=  ==  !=  ~=  >  <`, that occurs at all.
pub open spec fn spec_op_index(core: Seq<char>) -> Option<int> {
    if spec_find(core, seq!['>', '=']) is Some {
        spec_find(core, seq!['>', '='])
    } else if spec_find(core, seq!['<', '=']) is Some {
        spec_find(core, seq!['<', '='])
    } else if spec_find(core, seq!['=', '=']) is Some {
        spec_find(core, seq!['=', '='])
    } else if spec_find(core, seq!['!', '=']) is Some {
        spec_find(core, seq!['!', '='])
    } else if spec_find(core, seq!['~', '=']) is Some {
        spec_find(core, seq!['~', '='])
    } else if spec_find(core, seq!['>']) is Some {
        spec_find(core, seq!['>'])
    } else if spec_find(core, seq!['<']) is Some {
        spec_find(core, seq!['<'])
    } else {
        None
    }
}

/// The name / version-specifier pair a requirement core splits into: both
/// sides of the version operator, trimmed; without an operator, the whole
/// core and an empty specifier.
pub open spec fn spec_split_core(core: Seq<char>) -> (Seq<char>, Seq<char>) {
    match spec_op_index(core) {
        Some(i) => (spec_trim(core.subrange(0, i)), spec_trim(core.subrange(i, core.len() as int))),
        None => (core, Seq::<char>::empty()),
    }
}

/// What `parse_requirement` returns on `s`: trim, drop a `;`-separated
/// environment-marker suffix (trimming again), then split at the version
/// operator.
pub open spec fn spec_parse_requirement(s: Seq<char>) -> (Seq<char>, Seq<char>) {
    let t = spec_trim(s);
    let core = match spec_find(t, seq![';']) {
        Some(i) => spec_trim(t.subrange(0, i)),
        None => t,
    };
    spec_split_core(core)
}

/// Index of the version operator in `core`, searching the operators in
/// their fixed order.
fn find_op(core: &str) -> (r: Option<usize>)
    ensures
        match r {
            Some(i) => spec_op_index(core@) == Some(i as int) && i <= core@.len(),
            None => spec_op_index(core@) is None,
        },
{
    proof {
        reveal_strlit(">=");
        reveal_strlit("<=");
        reveal_strlit("==");
        reveal_strlit("!=");
        reveal_strlit("~=");
        reveal_strlit(">");
        reveal_strlit("<");
        assert(">="@ =~= seq!['>', '=']);
        assert("<="@ =~= seq!['<', '=']);
        assert("=="@ =~= seq!['=', '=']);
        assert("!="@ =~= seq!['!', '=']);
        assert("~="@ =~= seq!['~', '=']);
        assert(">"@ =~= seq!['>']);
        assert("<"@ =~= seq!['<']);
        lemma_find_from_bounds(core@, seq!['>', '='], 0);
        lemma_find_from_bounds(core@, seq!['<', '='], 0);
        lemma_find_from_bounds(core@, seq!['=', '='], 0);
        lemma_find_from_bounds(core@, seq!['!', '='], 0);
        lemma_find_from_bounds(core@, seq!['~', '='], 0);
        lemma_find_from_bounds(core@, seq!['>'], 0);
        lemma_find_from_bounds(core@, seq!['<'], 0);
    }
    if let Some(i) = find_sub(core, ">=") {
        return Some(i);
    }
    if let Some(i) = find_sub(core, "<=") {
        return Some(i);
    }
    if let Some(i) = find_sub(core, "==") {
        return Some(i);
    }
    if let Some(i) = find_sub(core, "!=") {
        return Some(i);
    }
    if let Some(i) = find_sub(core, "~=") {
        return Some(i);
    }
    if let Some(i) = find_sub(core, ">") {
        return Some(i);
    }
    if let Some(i) = find_sub(core, "<") {
        return Some(i);
    }
    None
}

/// Split a requirement string into its package name and version specifier.
/// A `;`-separated environment marker (`torch>=1.0; extra == 'torch'`) is
/// dropped first; a requirement without a version operator yields the bare
/// name and an empty specifier.  Always returns a parse.
pub fn parse_requirement(requirement: &str) -> (r: Option<ParsedRequirement>)
    ensures
        r matches Some(p) && p.name@ == spec_parse_requirement(requirement@).0 && p.version_spec@
            == spec_parse_requirement(requirement@).1,
{
    let trimmed = trim_str(requirement);
    let core: &str = match find_char(trimmed, ';') {
        Some(pos) => {
            proof {
                lemma_find_from_bounds(trimmed@, seq![';'], 0);
            }
            trim_str(trimmed.substring_char(0, pos))
        },
        None => trimmed,
    };
    match find_op(core) {
        Some(i) => {
            let name = String::from_str(trim_str(core.substring_char(0, i)));
            let version_spec = String::from_str(
                trim_str(core.substring_char(i, core.unicode_len())),
            );
            Some(ParsedRequirement { name, version_spec })
        },
        None => Some(
            ParsedRequirement { name: String::from_str(core), version_spec: String::new() },
        ),
    }
}

/// Names the result of `str::to_lowercase`: Unicode lowercasing, a function
/// of the characters alone.
pub uninterp spec fn lower_of(s: Seq<char>) -> Seq<char>;

/// Relies on str::to_lowercase: the lowercase mapping of the characters,
/// depending on nothing but the input string.
#[verifier::external_body]
fn lowercase(s: &str) -> (r: String)
    ensures
        r@ == lower_of(s@),
{
    s.to_lowercase()
}

/// The version specifier of the first `Requires-Dist:` line of the given
/// metadata lines whose parsed package name equals `dep`, both lowercased.
pub open spec fn spec_extract_dep(lines: Seq<Seq<char>>, dep: Seq<char>) -> Option<Seq<char>>
    decreases lines.len(),
{
    if lines.len() == 0 {
        None
    } else {
        let l = lines[0];
        let p = "Requires-Dist:"@;
        if spec_has_prefix(l, p) && lower_of(
            spec_parse_requirement(l.subrange(p.len() as int, l.len() as int)).0,
        ) == lower_of(dep) {
            Some(spec_parse_requirement(l.subrange(p.len() as int, l.len() as int)).1)
        } else {
            spec_extract_dep(lines.subrange(1, lines.len() as int), dep)
        }
    }
}

/// Scan a wheel `METADATA` file for the version specifier of one
/// dependency: the first `Requires-Dist:` line naming the dependency
/// (compared lowercased) yields its version specifier.
pub fn extract_dependency_version_from_metadata(metadata_content: &str, dependency_name: &str) -> (r:
    Option<String>)
    ensures
        match r {
            Some(v) => spec_extract_dep(spec_lines(metadata_content@), dependency_name@) == Some(
                v@,
            ),
            None => spec_extract_dep(spec_lines(metadata_content@), dependency_name@) is None,
        },
{
    let lines = split_lines(metadata_content);
    let dep_lower = lowercase(dependency_name);
    let prefix = "Requires-Dist:";
    let prefix_len = prefix.unicode_len();
    let n = lines.len();
    let ghost all = spec_lines(metadata_content@);
    proof {
        assert(views_of(lines@).subrange(0, n as int) =~= all);
    }
    let mut idx: usize = 0;
    while idx < n
        invariant
            0 <= idx <= n,
            n == lines@.len(),
            all == spec_lines(metadata_content@),
            views_of(lines@) == all,
            prefix_len == "Requires-Dist:"@.len(),
            prefix@ == "Requires-Dist:"@,
            dep_lower@ == lower_of(dependency_name@),
            spec_extract_dep(all, dependency_name@) == spec_extract_dep(
                views_of(lines@).subrange(idx as int, n as int),
                dependency_name@,
            ),
        decreases n - idx,
    {
        let line: &String = &lines[idx];
        let ghost l = line@;
        proof {
            assert(views_of(lines@)[idx as int] == l);
            assert(views_of(lines@).subrange(idx as int, n as int)[0] == l);
            assert(views_of(lines@).subrange(idx as int, n as int).subrange(
                1,
                n - idx,
            ) =~= views_of(lines@).subrange(idx + 1, n as int));
        }
        if starts_with_str(line.as_str(), prefix) {
            let line_len = line.as_str().unicode_len();
            let req = line.as_str().substring_char(prefix_len, line_len);
            let parsed = parse_requirement(req).unwrap();
            let name_lower = lowercase(parsed.name.as_str());
            if name_lower == dep_lower {
                proof {
                    let sub = views_of(lines@).subrange(idx as int, n as int);
                    assert(sub[0] == l);
                    assert(spec_has_prefix(l, "Requires-Dist:"@));
                    assert(req@ == l.subrange("Requires-Dist:"@.len() as int, l.len() as int));
                    assert(lower_of(spec_parse_requirement(req@).0) == lower_of(dependency_name@));
                    assert(spec_extract_dep(sub, dependency_name@) == Some(
                        spec_parse_requirement(req@).1,
                    ));
                }
                return Some(parsed.version_spec);
            }
        }
        idx = idx + 1;
    }
    proof {
        assert(views_of(lines@).subrange(idx as int, n as int) =~= Seq::<Seq<char>>::empty());
    }
    None
}

} // verus!
