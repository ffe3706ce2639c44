//! Paths as text: std's path operations behind named results, and the
//! library's own naming rules (temporary, partial and conflict names) on top.

use vstd::prelude::*;
use std::path::{Component, Path};
use vstd::string::*;
use crate::text::{digit_char, digit_text, ends_with, is_suffix, lemma_concat_lacks, lemma_subrange_lacks, str_eq};
use crate::clock::{local_now, LocalTime};

verus! {

/// One component of a path, as std splits it.
#[derive(Debug, Clone, PartialEq, Eq)]
pub enum PathPart {
    Prefix(String),
    Root,
    CurDir,
    ParentDir,
    Normal(String),
}

/// What a component holds, as text.
pub enum PartView {
    Prefix(Seq<char>),
    Root,
    CurDir,
    ParentDir,
    Normal(Seq<char>),
}

impl View for PathPart {
    type V = PartView;

    open spec fn view(&self) -> PartView {
        match self {
            PathPart::Prefix(s) => PartView::Prefix(s@),
            PathPart::Root => PartView::Root,
            PathPart::CurDir => PartView::CurDir,
            PathPart::ParentDir => PartView::ParentDir,
            PathPart::Normal(s) => PartView::Normal(s@),
        }
    }
}

pub open spec fn parts_view(v: Seq<PathPart>) -> Seq<PartView> {
    v.map_values(|x: PathPart| x@)
}

/// The components of a path, as `std::path::Path::components` yields them.
pub uninterp spec fn path_parts(p: Seq<char>) -> Seq<PartView>;

/// `p` with its file name replaced by `name`, as `std::path::Path::with_file_name` gives it.
pub uninterp spec fn with_file_name_of(p: Seq<char>, name: Seq<char>) -> Seq<char>;

/// `base` joined with `rel`, as `std::path::Path::join` gives it.
pub uninterp spec fn joined(base: Seq<char>, rel: Seq<char>) -> Seq<char>;

/// A single file name: non-empty, without separator, neither `.` nor `..`.
pub open spec fn plain_name(n: Seq<char>) -> bool {
    n.len() > 0 && !n.contains('/') && n != "."@ && n != ".."@
}

/// Relies on `std::path::Path::components`: each component converted one for
/// one; a normal component is a plain name (separators and `.`/`..` become
/// other components).
#[verifier::external_body]
pub(crate) fn components(p: &str) -> (r: Vec<PathPart>)
    ensures
        parts_view(r@) == path_parts(p@),
        forall|i: int| 0 <= i < r@.len() ==> (#[trigger] r@[i] matches PathPart::Normal(n) ==> plain_name(n@)),
{
    Path::new(p).components().map(|c| match c {
        Component::Prefix(x) => PathPart::Prefix(x.as_os_str().to_string_lossy().into_owned()),
        Component::RootDir => PathPart::Root,
        Component::CurDir => PathPart::CurDir,
        Component::ParentDir => PathPart::ParentDir,
        Component::Normal(x) => PathPart::Normal(x.to_string_lossy().into_owned()),
    }).collect()
}

/// Relies on `std::path::Path::with_file_name`: a plain name without either
/// separator (`/` or `\\`) becomes the file name of the result.
#[verifier::external_body]
pub(crate) fn with_file_name(p: &str, name: &str) -> (r: String)
    ensures
        r@ == with_file_name_of(p@, name@),
        plain_name(name@) && !name@.contains('\\') ==> file_name_of(r@) == Some(name@),
{
    Path::new(p).with_file_name(name).to_string_lossy().into_owned()
}

/// Relies on `std::path::Path::join`.
#[verifier::external_body]
pub(crate) fn join(base: &str, rel: &str) -> (r: String)
    ensures
        r@ == joined(base@, rel@),
{
    Path::new(base).join(rel).to_string_lossy().into_owned()
}

/// The file name: the last component when it is a normal one.
pub open spec fn file_name_of(p: Seq<char>) -> Option<Seq<char>> {
    let parts = path_parts(p);
    if parts.len() > 0 {
        match parts.last() {
            PartView::Normal(n) => Some(n),
            _ => None,
        }
    } else {
        None
    }
}

pub fn file_name(p: &str) -> (r: Option<String>)
    ensures
        r.is_some() == file_name_of(p@).is_some(),
        r.is_some() ==> r.unwrap()@ == file_name_of(p@).unwrap(),
        r.is_some() ==> plain_name(r.unwrap()@),
{
    let parts = components(p);
    let n = parts.len();
    if n == 0 {
        return None;
    }
    proof {
        assert(parts_view(parts@)[n - 1] == parts@[n - 1]@);
    }
    match &parts[n - 1] {
        PathPart::Normal(s) => Some(s.clone()),
        _ => None,
    }
}

fn part_eq(a: &PathPart, b: &PathPart) -> (r: bool)
    ensures
        r == (a@ == b@),
{
    match (a, b) {
        (PathPart::Prefix(x), PathPart::Prefix(y)) => str_eq(x.as_str(), y.as_str()),
        (PathPart::Root, PathPart::Root) => true,
        (PathPart::CurDir, PathPart::CurDir) => true,
        (PathPart::ParentDir, PathPart::ParentDir) => true,
        (PathPart::Normal(x), PathPart::Normal(y)) => str_eq(x.as_str(), y.as_str()),
        _ => false,
    }
}

/// Component-wise prefix: every component of `base` matches the component of
/// `p` at the same position.
pub open spec fn parts_prefix(base: Seq<PartView>, p: Seq<PartView>) -> bool {
    base.len() <= p.len() && forall|i: int| 0 <= i < base.len() ==> base[i] == p[i]
}

pub open spec fn path_starts_with_spec(p: Seq<char>, base: Seq<char>) -> bool {
    parts_prefix(path_parts(base), path_parts(p))
}

/// Whether `base` is a leading run of whole components of `p`.
pub fn path_starts_with(p: &str, base: &str) -> (r: bool)
    ensures
        r == path_starts_with_spec(p@, base@),
{
    let pp = components(p);
    let bp = components(base);
    let ghost pv = parts_view(pp@);
    let ghost bv = parts_view(bp@);
    if bp.len() > pp.len() {
        return false;
    }
    let mut i: usize = 0;
    while i < bp.len()
        invariant
            bp@.len() <= pp@.len(),
            pv == parts_view(pp@),
            bv == parts_view(bp@),
            pv == path_parts(p@),
            bv == path_parts(base@),
            pv.len() == pp@.len(),
            bv.len() == bp@.len(),
            i <= bp@.len(),
            forall|k: int| 0 <= k < i ==> bv[k] == pv[k],
        decreases bp@.len() - i,
    {
        if !part_eq(&bp[i], &pp[i]) {
            assert(bv[i as int] == bp@[i as int]@ && pv[i as int] == pp@[i as int]@);
            assert(!parts_prefix(bv, pv));
            return false;
        }
        assert(bv[i as int] == bp@[i as int]@ && pv[i as int] == pp@[i as int]@);
        i += 1;
    }
    true
}

/// The file name of `p`, or `file` when it has none.
pub open spec fn name_or_default(p: Seq<char>) -> Seq<char> {
    match file_name_of(p) {
        Some(n) => n,
        None => "file"@,
    }
}

fn sibling_with_suffix(dest: &str, suffix: &str) -> (r: String)
    requires
        suffix@.len() > 2,
        !suffix@.contains('/'),
        !suffix@.contains('\\'),
    ensures
        r@ == with_file_name_of(dest@, name_or_default(dest@) + suffix@),
        !name_or_default(dest@).contains('\\') ==> file_name_of(r@) == Some(name_or_default(dest@) + suffix@)
            && r@ != dest@,
{
    proof {
        reveal_strlit("file");
        reveal_strlit(".");
        reveal_strlit("..");
        assert(!"file"@.contains('/'));
        assert(!"file"@.contains('\\'));
    }
    let mut name = match file_name(dest) {
        Some(n) => n,
        None => String::from_str("file"),
    };
    let ghost base = name@;
    name.append(suffix);
    proof {
        assert(!base.contains('/'));
        lemma_concat_lacks(base, suffix@, '/');
        assert(name@ == base + suffix@);
        if !base.contains('\\') {
            lemma_concat_lacks(base, suffix@, '\\');
        }
        assert(name@.len() > 2);
        assert(name@.len() > 2 ==> name@ != "."@ && name@ != ".."@);
    }
    let r = with_file_name(dest, name.as_str());
    proof {
        if r@ == dest@ && !base.contains('\\') {
            assert(file_name_of(dest@) == Some(name@));
            assert(base == file_name_of(dest@).unwrap());
            assert(base.len() == name@.len());
        }
    }
    r
}

/// The staging file beside `dest` that an atomic copy writes before
/// publishing; its file name is the destination's with `.rsync-tmp` added.
pub fn get_temp_path(dest: &str) -> (r: String)
    ensures
        r@ == with_file_name_of(dest@, name_or_default(dest@) + ".rsync-tmp"@),
        !name_or_default(dest@).contains('\\') ==> file_name_of(r@) == Some(name_or_default(dest@) + ".rsync-tmp"@)
            && r@ != dest@,
{
    proof {
        reveal_strlit(".rsync-tmp");
    }
    sibling_with_suffix(dest, ".rsync-tmp")
}

/// The marker beside `dest` for a transfer known to be incomplete; its file
/// name is the destination's with `.rsync-partial` added.
pub fn get_partial_path(dest: &str) -> (r: String)
    ensures
        r@ == with_file_name_of(dest@, name_or_default(dest@) + ".rsync-partial"@),
        !name_or_default(dest@).contains('\\') ==> file_name_of(r@) == Some(name_or_default(dest@) + ".rsync-partial"@)
            && r@ != dest@,
{
    proof {
        reveal_strlit(".rsync-partial");
    }
    sibling_with_suffix(dest, ".rsync-partial")
}

/// The staging file and the partial marker of one destination have
/// different file names, so they are different paths.
pub proof fn lemma_staging_and_partial_differ(name: Seq<char>)
    ensures
        name + ".rsync-tmp"@ != name + ".rsync-partial"@,
{
    reveal_strlit(".rsync-tmp");
    reveal_strlit(".rsync-partial");
    assert((name + ".rsync-tmp"@).len() != (name + ".rsync-partial"@).len());
}

/// Whether a file name is a leftover of an interrupted copy.
pub fn is_stale_artifact(name: &str) -> (r: bool)
    ensures
        r == (is_suffix(".rsync-tmp"@, name@) || is_suffix(".rsync-partial"@, name@)),
{
    ends_with(name, ".rsync-tmp") || ends_with(name, ".rsync-partial")
}

/// Whether `p` lies under the mount root of external drives, `/Volumes`.
pub fn is_external_drive(p: &str) -> (r: bool)
    ensures
        r == path_starts_with_spec(p@, "/Volumes"@),
{
    path_starts_with(p, "/Volumes")
}

/// The position of the last `.` of a name.
pub open spec fn last_dot(n: Seq<char>) -> Option<int> {
    if exists|i: int| 0 <= i < n.len() && n[i] == '.' && forall|j: int| i < j < n.len() ==> n[j] != '.' {
        Some(choose|i: int| 0 <= i < n.len() && n[i] == '.' && forall|j: int| i < j < n.len() ==> n[j] != '.')
    } else {
        None
    }
}

/// How std splits a file name into stem and extension: at the last `.`,
/// unless that is the first character (a hidden file) or the name is `..`.
pub open spec fn stem_ext(n: Seq<char>) -> (Seq<char>, Option<Seq<char>>) {
    if n == ".."@ {
        (n, None)
    } else {
        match last_dot(n) {
            Some(i) => if i == 0 {
                (n, None)
            } else {
                (n.subrange(0, i), Some(n.subrange(i + 1, n.len() as int)))
            },
            None => (n, None),
        }
    }
}

fn split_file_name(n: &str) -> (r: (String, Option<String>))
    ensures
        r.0@ == stem_ext(n@).0,
        r.1.is_some() == stem_ext(n@).1.is_some(),
        r.1.is_some() ==> r.1.unwrap()@ == stem_ext(n@).1.unwrap(),
{
    let len = n.unicode_len();
    if str_eq(n, "..") {
        return (String::from_str(n), None);
    }
    let mut i: usize = len;
    while i > 0
        invariant
            len == n@.len(),
            n@ != ".."@,
            i <= len,
            forall|j: int| i <= j < len ==> n@[j] != '.',
        decreases i,
    {
        if n.get_char(i - 1) == '.' {
            let d = i - 1;
            proof {
                assert(n@[d as int] == '.');
                assert(exists|c: int| 0 <= c < n@.len() && n@[c] == '.' && forall|j: int| c < j < n@.len() ==> n@[j] != '.');
                let c = choose|c: int| 0 <= c < n@.len() && n@[c] == '.' && forall|j: int| c < j < n@.len() ==> n@[j] != '.';
                if c < d as int {
                    assert(n@[d as int] != '.');
                } else if c > d as int {
                    assert(n@[c] != '.');
                }
            }
            assert(last_dot(n@) == Some(d as int));
            if d == 0 {
                return (String::from_str(n), None);
            }
            let stem = String::from_str(n.substring_char(0, d));
            let ext = String::from_str(n.substring_char(d + 1, len));
            return (stem, Some(ext));
        }
        i -= 1;
    }
    assert(last_dot(n@).is_none());
    (String::from_str(n), None)
}

/// The new file name for a conflicting copy: `<stem>_<stamp>.<ext>`, or
/// `<stem>_<stamp>` when there is no extension; without a file name the stem
/// is `file`.
pub open spec fn conflict_file_name(p: Seq<char>, stamp: Seq<char>) -> Seq<char> {
    let (stem, ext) = match file_name_of(p) {
        Some(n) => stem_ext(n),
        None => ("file"@, None),
    };
    match ext {
        Some(e) => stem + "_"@ + stamp + "."@ + e,
        None => stem + "_"@ + stamp,
    }
}

/// A conflict stamp: fifteen characters, digits and `_`.
pub open spec fn stamp_shape(s: Seq<char>) -> bool {
    s.len() == 15 && forall|k: int| 0 <= k < 15 ==> (s[k] == '_' || ('0' <= #[trigger] s[k] && s[k] <= '9'))
}

/// The conflict path for `p` under the timestamp text `stamp`. With a stamp
/// of the usual shape the result is a sibling of `p` under a new file name.
pub fn conflict_name_with_stamp(p: &str, stamp: &str) -> (r: String)
    ensures
        r@ == with_file_name_of(p@, conflict_file_name(p@, stamp@)),
        stamp_shape(stamp@) && !name_or_default(p@).contains('\\') ==> file_name_of(r@) == Some(
            conflict_file_name(p@, stamp@),
        ) && r@ != p@,
{
    proof {
        reveal_strlit("file");
        reveal_strlit("_");
        reveal_strlit(".");
        reveal_strlit("..");
        assert(!"file"@.contains('/') && !"file"@.contains('\\'));
        assert(!"_"@.contains('/') && !"_"@.contains('\\'));
        assert(!"."@.contains('/') && !"."@.contains('\\'));
    }
    let ghost base = name_or_default(p@);
    let fname = file_name(p);
    proof {
        reveal_strlit("file");
        assert(!base.contains('/'));
    }
    let (mut name, ext) = match fname {
        Some(n) => split_file_name(n.as_str()),
        None => (String::from_str("file"), None),
    };
    let ghost stem = name@;
    name.append("_");
    name.append(stamp);
    match &ext {
        Some(e) => {
            name.append(".");
            name.append(e.as_str());
        },
        None => {},
    }
    proof {
        if stamp_shape(stamp@) && !base.contains('\\') {
            lemma_conflict_name_plain(p@, stamp@);
        }
    }
    let r = with_file_name(p, name.as_str());
    proof {
        if stamp_shape(stamp@) && !base.contains('\\') && r@ == p@ {
            assert(file_name_of(p@) == Some(name@));
        }
    }
    r
}

/// With a stamp of the usual shape the conflict name is a plain name without
/// separators, and differs from the file name it replaces.
proof fn lemma_conflict_name_plain(p: Seq<char>, stamp: Seq<char>)
    requires
        stamp_shape(stamp),
        !name_or_default(p).contains('\\'),
        !name_or_default(p).contains('/'),
    ensures
        plain_name(conflict_file_name(p, stamp)),
        !conflict_file_name(p, stamp).contains('\\'),
        conflict_file_name(p, stamp) != name_or_default(p),
{
    reveal_strlit("file");
    reveal_strlit("_");
    reveal_strlit(".");
    reveal_strlit("..");
    let base = name_or_default(p);
    assert(!stamp.contains('/') && !stamp.contains('\\')) by {
        if stamp.contains('/') || stamp.contains('\\') {
            let k = choose|k: int| 0 <= k < stamp.len() && (stamp[k] == '/' || stamp[k] == '\\');
            assert(stamp[k] == '_' || ('0' <= stamp[k] && stamp[k] <= '9'));
        }
    }
    assert(!"file"@.contains('/') && !"file"@.contains('\\'));
    assert(!"_"@.contains('/') && !"_"@.contains('\\'));
    assert(!"."@.contains('/') && !"."@.contains('\\'));
    assert(!base.contains('/'));
    let (stem, ext) = match file_name_of(p) {
        Some(n) => stem_ext(n),
        None => ("file"@, None),
    };
    let last = base.len() as int;
    if file_name_of(p).is_some() && base != ".."@ {
        match last_dot(base) {
            Some(i) => {
                assert(0 <= i < base.len());
                if i != 0 {
                    lemma_subrange_lacks(base, 0, i, '/');
                    lemma_subrange_lacks(base, 0, i, '\\');
                    lemma_subrange_lacks(base, i + 1, last, '/');
                    lemma_subrange_lacks(base, i + 1, last, '\\');
                }
            },
            None => {},
        }
    }
    assert(!stem.contains('/') && !stem.contains('\\'));
    lemma_concat_lacks(stem, "_"@, '/');
    lemma_concat_lacks(stem, "_"@, '\\');
    lemma_concat_lacks(stem + "_"@, stamp, '/');
    lemma_concat_lacks(stem + "_"@, stamp, '\\');
    match ext {
        Some(e) => {
            assert(!e.contains('/') && !e.contains('\\'));
            lemma_concat_lacks(stem + "_"@ + stamp, "."@, '/');
            lemma_concat_lacks(stem + "_"@ + stamp, "."@, '\\');
            lemma_concat_lacks(stem + "_"@ + stamp + "."@, e, '/');
            lemma_concat_lacks(stem + "_"@ + stamp + "."@, e, '\\');
        },
        None => {},
    }
    assert(conflict_file_name(p, stamp).len() > base.len());
}

pub open spec fn two(n: nat) -> Seq<char> {
    seq![digit_char(n / 10), digit_char(n % 10)]
}

pub open spec fn four(n: nat) -> Seq<char> {
    seq![digit_char(n / 1000), digit_char((n / 100) % 10), digit_char((n / 10) % 10), digit_char(n % 10)]
}

/// The year written with four digits; years outside `0..=9999` are clamped.
pub open spec fn year4(y: i32) -> nat {
    if y < 0 { 0 } else if y > 9999 { 9999 } else { y as nat }
}

/// `YYYYMMDD_HHMMSS` for a local time.
pub open spec fn stamp_text(t: LocalTime) -> Seq<char> {
    four(year4(t.year)) + two(t.month as nat) + two(t.day as nat) + seq!['_'] + two(t.hour as nat) + two(
        t.minute as nat,
    ) + two(t.second as nat)
}

proof fn lemma_digit_char(d: nat)
    ensures
        '0' <= digit_char(d) <= '9',
{
}

fn append_digits(s: &mut String, n: u64, width: u64)
    requires
        width == 2 || width == 4,
        width == 2 ==> n < 100,
        width == 4 ==> n < 10000,
    ensures
        width == 2 ==> final(s)@ == old(s)@ + two(n as nat),
        width == 4 ==> final(s)@ == old(s)@ + four(n as nat),
{
    let ghost s0 = s@;
    if width == 4 {
        s.append(digit_text(n / 1000));
        s.append(digit_text((n / 100) % 10));
        s.append(digit_text((n / 10) % 10));
        s.append(digit_text(n % 10));
        assert(s@ =~= s0 + four(n as nat));
    } else {
        s.append(digit_text(n / 10));
        s.append(digit_text(n % 10));
        assert(s@ =~= s0 + two(n as nat));
    }
}

/// The conflict stamp of a local time: `YYYYMMDD_HHMMSS`.
pub fn stamp_of(t: &LocalTime) -> (r: String)
    requires
        t.valid(),
    ensures
        r@ == stamp_text(*t),
        stamp_shape(r@),
{
    let y: u64 = if t.year < 0 { 0 } else if t.year > 9999 { 9999 } else { t.year as u64 };
    let mut s = String::new();
    append_digits(&mut s, y, 4);
    append_digits(&mut s, t.month as u64, 2);
    append_digits(&mut s, t.day as u64, 2);
    proof {
        reveal_strlit("_");
    }
    s.append("_");
    append_digits(&mut s, t.hour as u64, 2);
    append_digits(&mut s, t.minute as u64, 2);
    append_digits(&mut s, t.second as u64, 2);
    proof {
        assert(s@ =~= stamp_text(*t));
        assert forall|k: int| 0 <= k < 15 implies (s@[k] == '_' || ('0' <= #[trigger] s@[k] && s@[k] <= '9')) by {
            if k != 8 {
                let y4 = year4(t.year);
                lemma_digit_char(y4 / 1000);
                lemma_digit_char((y4 / 100) % 10);
                lemma_digit_char((y4 / 10) % 10);
                lemma_digit_char(y4 % 10);
                lemma_digit_char(t.month as nat / 10);
                lemma_digit_char(t.month as nat % 10);
                lemma_digit_char(t.day as nat / 10);
                lemma_digit_char(t.day as nat % 10);
                lemma_digit_char(t.hour as nat / 10);
                lemma_digit_char(t.hour as nat % 10);
                lemma_digit_char(t.minute as nat / 10);
                lemma_digit_char(t.minute as nat % 10);
                lemma_digit_char(t.second as nat / 10);
                lemma_digit_char(t.second as nat % 10);
            }
        }
    }
    s
}

/// The conflict path for `p` stamped with the current local time (the
/// epoch's when the clock cannot be read): a sibling of `p` named
/// `<stem>_<YYYYMMDD_HHMMSS>.<ext>`.
pub fn generate_conflict_name(p: &str) -> (r: String)
    ensures
        exists|stamp: Seq<char>| {
            &&& stamp_shape(stamp)
            &&& r@ == with_file_name_of(p@, conflict_file_name(p@, stamp))
            &&& !name_or_default(p@).contains('\\') ==> file_name_of(r@) == Some(conflict_file_name(p@, stamp)) && r@ != p@
        },
{
    let t = match local_now() {
        Some(t) => t,
        None => LocalTime { year: 1970, month: 1, day: 1, hour: 0, minute: 0, second: 0 },
    };
    let stamp = stamp_of(&t);
    conflict_name_with_stamp(p, stamp.as_str())
}

} // verus!
