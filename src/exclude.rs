//! Exclusion of paths by glob patterns, matched through globset.

use vstd::prelude::*;
use vstd::string::*;
use crate::text::{texts, trim, trimmed};
use crate::paths::{components, file_name, file_name_of, parts_view, path_parts, PathPart, PartView};

verus! {

/// Whether globset accepts `p` as a glob.
pub uninterp spec fn glob_accepts(p: Seq<char>) -> bool;

/// Whether the glob `p`, compiled by globset with default options, matches `candidate`.
pub uninterp spec fn glob_matches(p: Seq<char>, candidate: Seq<char>) -> bool;

/// Relies on `globset::Glob::new`: whether it accepts the pattern, and the
/// text of its error when it does not.
#[verifier::external_body]
fn glob_error(p: &str) -> (r: Option<String>)
    ensures
        r.is_none() == glob_accepts(p@),
{
    globset::Glob::new(p).err().map(|e| e.to_string())
}

fn glob_compiles(p: &str) -> (r: bool)
    ensures
        r == glob_accepts(p@),
{
    glob_error(p).is_none()
}

/// Checks a user's exclusion pattern: it must hold more than whitespace and
/// compile as given or under `**/`.
pub fn validate_glob_pattern(pattern: &str) -> (r: Result<(), String>)
    ensures
        r.is_ok() == (trimmed(pattern@).len() > 0 && compiled_form(pattern@).is_some()),
{
    let t = trim(pattern);
    if t.unicode_len() == 0 {
        return Err(String::from_str("Pattern cannot be empty"));
    }
    match glob_error(pattern) {
        None => Ok(()),
        Some(e) => {
            let mut wide = String::from_str("**/");
            wide.append(pattern);
            if glob_compiles(wide.as_str()) {
                Ok(())
            } else {
                let mut msg = String::from_str("Invalid glob pattern: ");
                msg.append(e.as_str());
                Err(msg)
            }
        },
    }
}

#[verifier::external_type_specification]
#[verifier::external_body]
pub struct ExGlobSet(globset::GlobSet);

/// The globs a compiled set was built from, in order.
pub uninterp spec fn glob_set_globs(s: globset::GlobSet) -> Seq<Seq<char>>;

/// Whether globset can compile a set of these globs (it refuses a set whose
/// matcher outgrows its size limit).
pub uninterp spec fn glob_set_builds(globs: Seq<Seq<char>>) -> bool;

/// Relies on `globset::GlobSetBuilder`: the set of the given globs, added in
/// order and compiled by `build`; `None` when building fails.
#[verifier::external_body]
fn build_glob_set(globs: &Vec<String>) -> (r: Option<globset::GlobSet>)
    requires
        forall|k: int| 0 <= k < globs@.len() ==> glob_accepts(#[trigger] globs@[k]@),
    ensures
        r.is_some() == glob_set_builds(texts(globs@)),
        r.is_some() ==> glob_set_globs(r.unwrap()) == texts(globs@),
{
    let mut builder = globset::GlobSetBuilder::new();
    for g in globs {
        match globset::Glob::new(g) {
            Ok(glob) => {
                builder.add(glob);
            },
            Err(_) => return None,
        }
    }
    builder.build().ok()
}

/// Relies on `globset::GlobSet::is_match`: whether any glob of the set
/// matches the candidate path.
#[verifier::external_body]
fn glob_set_matches(s: &globset::GlobSet, candidate: &str) -> (r: bool)
    ensures
        r == (exists|k: int| 0 <= k < glob_set_globs(*s).len() && glob_matches(#[trigger] glob_set_globs(*s)[k], candidate@)),
{
    s.is_match(candidate)
}

/// The glob that stands for a user pattern: the pattern itself when it
/// compiles, else the pattern under `**/`, else none (the pattern is ignored).
pub open spec fn compiled_form(p: Seq<char>) -> Option<Seq<char>> {
    if glob_accepts(p) {
        Some(p)
    } else if glob_accepts("**/"@ + p) {
        Some("**/"@ + p)
    } else {
        None
    }
}

pub open spec fn compiled_all(ps: Seq<Seq<char>>) -> Seq<Seq<char>>
    decreases ps.len(),
{
    if ps.len() == 0 {
        Seq::empty()
    } else {
        match compiled_form(ps.last()) {
            Some(g) => compiled_all(ps.drop_last()).push(g),
            None => compiled_all(ps.drop_last()),
        }
    }
}

/// Whether some glob of `globs` matches `c`.
pub open spec fn matches_any(globs: Seq<Seq<char>>, c: Seq<char>) -> bool {
    exists|k: int| 0 <= k < globs.len() && glob_matches(#[trigger] globs[k], c)
}

/// The compiled exclusion globs of a sync run.
pub struct ExcludeMatcher {
    pub globs: Vec<String>,
    pub set: globset::GlobSet,
}

/// The globs a matcher excludes by; none without a matcher.
pub open spec fn globs_of(m: Option<ExcludeMatcher>) -> Seq<Seq<char>> {
    match m {
        Some(m) => texts(m.globs@),
        None => Seq::empty(),
    }
}

impl ExcludeMatcher {
    pub open spec fn wf(self) -> bool {
        &&& self.globs@.len() > 0
        &&& forall|k: int| 0 <= k < self.globs@.len() ==> glob_accepts(#[trigger] self.globs@[k]@)
        &&& glob_set_globs(self.set) == texts(self.globs@)
    }


    pub fn is_match(&self, c: &str) -> (r: bool)
        requires
            self.wf(),
        ensures
            r == matches_any(texts(self.globs@), c@),
    {
        glob_set_matches(&self.set, c)
    }
}

/// Compiles the user's exclusion patterns; patterns that compile in neither
/// form are ignored. No usable pattern, or a set that globset cannot build,
/// gives no matcher.
pub fn build_exclude_matcher(patterns: &Vec<String>) -> (r: Option<ExcludeMatcher>)
    ensures
        r.is_some() == (compiled_all(texts(patterns@)).len() > 0 && glob_set_builds(compiled_all(texts(patterns@)))),
        r.is_some() ==> r.unwrap().wf() && texts(r.unwrap().globs@) == compiled_all(texts(patterns@)),
{
    let mut globs: Vec<String> = Vec::new();
    let mut i: usize = 0;
    while i < patterns.len()
        invariant
            i <= patterns@.len(),
            texts(globs@) == compiled_all(texts(patterns@).subrange(0, i as int)),
            forall|k: int| 0 <= k < globs@.len() ==> glob_accepts(#[trigger] globs@[k]@),
        decreases patterns@.len() - i,
    {
        let ghost before = texts(patterns@).subrange(0, i as int);
        proof {
            let after = texts(patterns@).subrange(0, i + 1);
            assert(after.drop_last() =~= before);
            assert(after.last() == patterns@[i as int]@);
        }
        let p = patterns[i].as_str();
        if glob_compiles(p) {
            globs.push(String::from_str(p));
            proof {
                assert(texts(globs@) =~= compiled_all(before).push(p@));
            }
        } else {
            let mut wide = String::from_str("**/");
            wide.append(p);
            if glob_compiles(wide.as_str()) {
                globs.push(wide);
                proof {
                    assert(texts(globs@) =~= compiled_all(before).push("**/"@ + p@));
                }
            }
        }
        i += 1;
    }
    proof {
        assert(texts(patterns@).subrange(0, patterns@.len() as int) =~= texts(patterns@));
    }
    if globs.len() == 0 {
        return None;
    }
    match build_glob_set(&globs) {
        Some(set) => Some(ExcludeMatcher { globs, set }),
        None => None,
    }
}

/// Exclusion of a relative path: the whole path, its file name, or any normal
/// component matches a glob of the set.
pub open spec fn excluded_by(globs: Seq<Seq<char>>, path: Seq<char>) -> bool {
    ||| matches_any(globs, path)
    ||| (file_name_of(path).is_some() && matches_any(globs, file_name_of(path).unwrap()))
    ||| exists|i: int| 0 <= i < path_parts(path).len() && #[trigger] normal_match(globs, path_parts(path)[i])
}

/// Whether `c` is a normal component that some glob of `globs` matches.
pub open spec fn normal_match(globs: Seq<Seq<char>>, c: PartView) -> bool {
    match c {
        PartView::Normal(n) => matches_any(globs, n),
        _ => false,
    }
}

pub open spec fn should_exclude_spec(path: Seq<char>, matcher: Option<ExcludeMatcher>) -> bool {
    match matcher {
        None => false,
        Some(m) => excluded_by(texts(m.globs@), path),
    }
}

/// No glob, no exclusion.
pub proof fn lemma_no_globs(path: Seq<char>)
    ensures
        !excluded_by(Seq::empty(), path),
{
    assert forall|i: int| !#[trigger] normal_match(Seq::empty(), path_parts(path)[i]) by {}
}

/// A matcher excludes exactly what its globs exclude.
pub proof fn lemma_matcher_excludes_by_globs(path: Seq<char>, m: Option<ExcludeMatcher>)
    ensures
        should_exclude_spec(path, m) == excluded_by(globs_of(m), path),
{
    if m.is_none() {
        lemma_no_globs(path);
    }
}

/// Whether `path` (relative to the scan root) is excluded.
pub fn should_exclude(path: &str, matcher: Option<&ExcludeMatcher>) -> (r: bool)
    requires
        matcher.is_some() ==> matcher.unwrap().wf(),
    ensures
        r == should_exclude_spec(path@, match matcher { Some(m) => Some(*m), None => None }),
{
    let m = match matcher {
        Some(m) => m,
        None => return false,
    };
    if m.is_match(path) {
        return true;
    }
    match file_name(path) {
        Some(n) => {
            if m.is_match(n.as_str()) {
                return true;
            }
        },
        None => {},
    }
    let parts = components(path);
    let ghost pv = parts_view(parts@);
    let mut i: usize = 0;
    while i < parts.len()
        invariant
            m.wf(),
            matcher == Some(m),
            pv == parts_view(parts@),
            pv == path_parts(path@),
            pv.len() == parts@.len(),
            i <= parts@.len(),
            forall|j: int| 0 <= j < i ==> !#[trigger] normal_match(texts(m.globs@), pv[j]),
        decreases parts@.len() - i,
    {
        proof {
            assert(pv[i as int] == parts@[i as int]@);
        }
        match &parts[i] {
            PathPart::Normal(n) => {
                if m.is_match(n.as_str()) {
                    assert(pv[i as int] == PartView::Normal(n@));
                    assert(normal_match(texts(m.globs@), path_parts(path@)[i as int]));

                    return true;
                }
            },
            _ => {},
        }
        i += 1;
    }
    false
}

/// A compiled pattern belongs to the compiled set.
pub proof fn lemma_compiled_contains(ps: Seq<Seq<char>>, i: int)
    requires
        0 <= i < ps.len(),
        compiled_form(ps[i]).is_some(),
    ensures
        compiled_all(ps).contains(compiled_form(ps[i]).unwrap()),
    decreases ps.len(),
{
    if i == ps.len() - 1 {
        let c = compiled_all(ps.drop_last()).push(compiled_form(ps[i]).unwrap());
        assert(c[c.len() - 1] == compiled_form(ps[i]).unwrap());
    } else {
        assert(ps.drop_last()[i] == ps[i]);
        lemma_compiled_contains(ps.drop_last(), i);
        let w = choose|w: int| 0 <= w < compiled_all(ps.drop_last()).len() && compiled_all(ps.drop_last())[w]
            == compiled_form(ps[i]).unwrap();
        match compiled_form(ps.last()) {
            Some(g) => {
                assert(compiled_all(ps)[w] == compiled_all(ps.drop_last())[w]);
            },
            None => {},
        }
    }
}

/// What one glob excludes, a larger set of globs excludes too.
pub proof fn lemma_excluded_by_member(g: Seq<char>, globs: Seq<Seq<char>>, path: Seq<char>)
    requires
        globs.contains(g),
        excluded_by(seq![g], path),
    ensures
        excluded_by(globs, path),
{
    let w = choose|w: int| 0 <= w < globs.len() && globs[w] == g;
    assert forall|c: Seq<char>| matches_any(seq![g], c) implies matches_any(globs, c) by {
        assert(seq![g][0] == g);
        assert(glob_matches(globs[w], c));
    }
    if !matches_any(seq![g], path) && !(file_name_of(path).is_some() && matches_any(seq![g], file_name_of(path).unwrap())) {
        let i = choose|i: int| 0 <= i < path_parts(path).len() && #[trigger] normal_match(seq![g], path_parts(path)[i]);
        assert(normal_match(globs, path_parts(path)[i]));
    }
}

} // verus!
