//! The orchestrator's decisions: how a manifest is split into work, which
//! destination entries are orphans, what a resumed run still has to copy, how
//! outcomes add up to a summary, and which status a run ends in.

use vstd::prelude::*;
use vstd::string::*;
use vstd::hash_set::StringHashSet;
use crate::delta::{delta_of, DeltaStatus, DestMeta, FileInfo, Timestamp};
use crate::error::SyncError;
use crate::exclude::{
    build_exclude_matcher, compiled_all, compiled_form, lemma_compiled_contains, lemma_excluded_by_member, excluded_by, globs_of, lemma_matcher_excludes_by_globs, lemma_no_globs,
    glob_set_builds, should_exclude, ExcludeMatcher,
};
use crate::options::{action_spec, FileAction, SyncOptions};
use crate::paths::{join, joined};
use crate::scan::DirectoryInfo;
use crate::text::{decimal, decimal_of, is_prefix, texts};
use crate::transfer_state::{resume_offset_of, FileTransferState, TransferState, TransferStatus};

verus! {

/// How one manifest entry is handled.
#[derive(Debug, Clone, Copy, PartialEq, Eq, Structural)]
pub enum EntryClass {
    Excluded,
    Dir,
    Symlink,
    Regular,
}

pub open spec fn class_of(f: FileInfo, follow_symlinks: bool, globs: Seq<Seq<char>>) -> EntryClass {
    if excluded_by(globs, f.path@) {
        EntryClass::Excluded
    } else if f.is_dir {
        EntryClass::Dir
    } else if f.is_symlink && !follow_symlinks {
        EntryClass::Symlink
    } else {
        EntryClass::Regular
    }
}

/// `v` lists, in increasing order, exactly the positions of `files` whose class is `c`.
pub open spec fn lists_class(
    v: Seq<usize>,
    files: Seq<FileInfo>,
    follow: bool,
    patterns: Seq<Seq<char>>,
    c: EntryClass,
) -> bool {
    &&& forall|k: int| 0 <= k < v.len() ==> v[k] < files.len() && class_of(files[v[k] as int], follow, patterns) == c
    &&& forall|a: int, b: int| 0 <= a < b < v.len() ==> v[a] < v[b]
    &&& forall|i: int| 0 <= i < files.len() && class_of(files[i], follow, patterns) == c ==> v.contains(i as usize)
}

pub open spec fn count_class(files: Seq<FileInfo>, follow: bool, patterns: Seq<Seq<char>>, c: EntryClass) -> int
    decreases files.len(),
{
    if files.len() == 0 {
        0
    } else {
        count_class(files.drop_last(), follow, patterns, c) + if class_of(files.last(), follow, patterns) == c {
            1int
        } else {
            0
        }
    }
}

/// The work of one run: directories to create, symlinks to recreate and
/// regular files to copy (positions in the manifest, in manifest order), and
/// the number of excluded entries; with the matcher that excluded them.
pub struct SyncPlan {
    pub dirs: Vec<usize>,
    pub symlinks: Vec<usize>,
    pub regular: Vec<usize>,
    pub excluded: usize,
    pub exclusion: Option<ExcludeMatcher>,
}

fn push_position(v: &mut Vec<usize>, i: usize, Ghost(files): Ghost<Seq<FileInfo>>, Ghost(follow): Ghost<bool>, Ghost(patterns): Ghost<Seq<Seq<char>>>, Ghost(c): Ghost<EntryClass>)
    requires
        i < files.len(),
        class_of(files[i as int], follow, patterns) == c,
        forall|k: int| 0 <= k < old(v)@.len() ==> old(v)@[k] < i && class_of(files[old(v)@[k] as int], follow, patterns) == c,
        forall|a: int, b: int| 0 <= a < b < old(v)@.len() ==> old(v)@[a] < old(v)@[b],
        forall|j: int| 0 <= j < i && class_of(files[j], follow, patterns) == c ==> old(v)@.contains(j as usize),
    ensures
        final(v)@ == old(v)@.push(i),
        forall|k: int| 0 <= k < final(v)@.len() ==> final(v)@[k] <= i && class_of(files[final(v)@[k] as int], follow, patterns) == c,
        forall|a: int, b: int| 0 <= a < b < final(v)@.len() ==> final(v)@[a] < final(v)@[b],
        forall|j: int| 0 <= j <= i && class_of(files[j], follow, patterns) == c ==> final(v)@.contains(j as usize),
{
    let ghost v0 = v@;
    v.push(i);
    proof {
        assert(v@[v@.len() - 1] == i);
        assert forall|j: int| 0 <= j <= i && class_of(files[j], follow, patterns) == c implies v@.contains(j as usize) by {
            if j < i {
                let k = choose|k: int| 0 <= k < v0.len() && v0[k] == j as usize;
                assert(v@[k] == v0[k]);
            }
        }
    }
}

/// Splits the manifest into directories, symlinks (recreated unless
/// symlinks are followed) and regular files, leaving out the entries that
/// the compiled exclusion patterns exclude.
pub fn plan_sync(manifest: &DirectoryInfo, options: &SyncOptions) -> (r: SyncPlan)
    ensures
        r.exclusion.is_some() ==> r.exclusion.unwrap().wf() && globs_of(r.exclusion) == compiled_all(texts(options.exclude_patterns@)),
        r.exclusion.is_some() == (compiled_all(texts(options.exclude_patterns@)).len() > 0 && glob_set_builds(
            compiled_all(texts(options.exclude_patterns@)),
        )),
        lists_class(r.dirs@, manifest.files@, options.follow_symlinks, globs_of(r.exclusion), EntryClass::Dir),
        lists_class(r.symlinks@, manifest.files@, options.follow_symlinks, globs_of(r.exclusion), EntryClass::Symlink),
        lists_class(r.regular@, manifest.files@, options.follow_symlinks, globs_of(r.exclusion), EntryClass::Regular),
        r.excluded == count_class(manifest.files@, options.follow_symlinks, globs_of(r.exclusion), EntryClass::Excluded),
{
    let matcher = build_exclude_matcher(&options.exclude_patterns);
    let ghost files = manifest.files@;
    let ghost follow = options.follow_symlinks;
    let ghost pats = globs_of(matcher);
    let mut dirs: Vec<usize> = Vec::new();
    let mut symlinks: Vec<usize> = Vec::new();
    let mut regular: Vec<usize> = Vec::new();
    let mut excluded: usize = 0;
    let mut i: usize = 0;
    while i < manifest.files.len()
        invariant
            files == manifest.files@,
            follow == options.follow_symlinks,
            pats == globs_of(matcher),
            matcher.is_some() ==> matcher.unwrap().wf(),
            i <= files.len(),
            excluded == count_class(files.subrange(0, i as int), follow, pats, EntryClass::Excluded),
            excluded <= i,
            forall|k: int| 0 <= k < dirs@.len() ==> dirs@[k] < i && class_of(files[dirs@[k] as int], follow, pats) == EntryClass::Dir,
            forall|a: int, b: int| 0 <= a < b < dirs@.len() ==> dirs@[a] < dirs@[b],
            forall|j: int| 0 <= j < i && class_of(files[j], follow, pats) == EntryClass::Dir ==> dirs@.contains(j as usize),
            forall|k: int| 0 <= k < symlinks@.len() ==> symlinks@[k] < i && class_of(files[symlinks@[k] as int], follow, pats) == EntryClass::Symlink,
            forall|a: int, b: int| 0 <= a < b < symlinks@.len() ==> symlinks@[a] < symlinks@[b],
            forall|j: int| 0 <= j < i && class_of(files[j], follow, pats) == EntryClass::Symlink ==> symlinks@.contains(j as usize),
            forall|k: int| 0 <= k < regular@.len() ==> regular@[k] < i && class_of(files[regular@[k] as int], follow, pats) == EntryClass::Regular,
            forall|a: int, b: int| 0 <= a < b < regular@.len() ==> regular@[a] < regular@[b],
            forall|j: int| 0 <= j < i && class_of(files[j], follow, pats) == EntryClass::Regular ==> regular@.contains(j as usize),
        decreases files.len() - i,
    {
        let f = &manifest.files[i];
        let m = match &matcher {
            Some(m) => Some(m),
            None => None,
        };
        let ex = should_exclude(f.path.as_str(), m);
        proof {
            lemma_matcher_excludes_by_globs(f.path@, matcher);
            let s = files.subrange(0, i + 1);
            assert(s.drop_last() =~= files.subrange(0, i as int));
        }
        if ex {
            excluded = excluded + 1;
        } else if f.is_dir {
            push_position(&mut dirs, i, Ghost(files), Ghost(follow), Ghost(pats), Ghost(EntryClass::Dir));
        } else if f.is_symlink && !options.follow_symlinks {
            push_position(&mut symlinks, i, Ghost(files), Ghost(follow), Ghost(pats), Ghost(EntryClass::Symlink));
        } else {
            push_position(&mut regular, i, Ghost(files), Ghost(follow), Ghost(pats), Ghost(EntryClass::Regular));
        }
        i += 1;
    }
    proof {
        assert(files.subrange(0, files.len() as int) =~= files);
    }
    SyncPlan { dirs, symlinks, regular, excluded, exclusion: matcher }
}

pub open spec fn path_set(files: Seq<FileInfo>) -> Set<Seq<char>> {
    Set::new(|p: Seq<char>| exists|i: int| 0 <= i < files.len() && (#[trigger] files[i]).path@ == p)
}

/// `v` lists, in increasing order, exactly the positions of `dest` whose
/// relative path no source entry has.
pub open spec fn lists_orphans(v: Seq<usize>, source: Seq<FileInfo>, dest: Seq<String>) -> bool {
    &&& forall|k: int| 0 <= k < v.len() ==> v[k] < dest.len() && !path_set(source).contains(dest[v[k] as int]@)
    &&& forall|a: int, b: int| 0 <= a < b < v.len() ==> v[a] < v[b]
    &&& forall|i: int| 0 <= i < dest.len() && !path_set(source).contains(dest[i]@) ==> v.contains(i as usize)
}

/// The message of a refused orphan sweep: the error count and the first three errors.
/// How a refused sweep's message starts: it reports the number of errors.
pub open spec fn incomplete_scan_head(n: nat) -> Seq<char> {
    "Orphan deletion skipped: source scan was incomplete ("@ + decimal_of(n) + " errors)"@
}

fn incomplete_scan_message(scan_errors: &Vec<String>) -> (r: String)
    ensures
        is_prefix(incomplete_scan_head(scan_errors@.len()), r@),
{
    let mut msg = String::from_str("Orphan deletion skipped: source scan was incomplete (");
    let n = scan_errors.len() as u64;
    let count = decimal(n);
    msg.append(count.as_str());
    msg.append(" errors)");
    let ghost head = msg@;
    proof {
        assert(head == incomplete_scan_head(scan_errors@.len()));
        assert(msg@.subrange(0, head.len() as int) =~= head);
    }
    msg.append(". First errors: ");
    proof {
        assert(msg@.subrange(0, head.len() as int) =~= head);
    }
    let mut k: usize = 0;
    while k < scan_errors.len() && k < 3
        invariant
            head.len() <= msg@.len(),
            msg@.subrange(0, head.len() as int) == head,
        decreases scan_errors@.len() - k,
    {
        if k > 0 {
            msg.append("; ");
            proof {
                assert(msg@.subrange(0, head.len() as int) =~= head);
            }
        }
        msg.append(scan_errors[k].as_str());
        proof {
            assert(msg@.subrange(0, head.len() as int) =~= head);
        }
        k += 1;
    }
    msg.append(". Re-run sync after resolving scan issues to safely delete orphans.");
    proof {
        assert(msg@.subrange(0, head.len() as int) =~= head);
    }
    msg
}

/// The destination entries (relative paths, in the order they will be
/// removed) that the orphan sweep deletes. Refused with `IncompleteScan` when
/// the source scan was not complete.
pub fn select_orphans(
    source: &DirectoryInfo,
    dest_entries: &Vec<String>,
    scan_complete: bool,
    scan_errors: &Vec<String>,
) -> (r: Result<Vec<usize>, SyncError>)
    ensures
        r.is_ok() == scan_complete,
        !scan_complete ==> (r matches Err(SyncError::IncompleteScan(m)) && is_prefix(
            incomplete_scan_head(scan_errors@.len()),
            m@,
        )),
        r.is_ok() ==> lists_orphans(r.unwrap()@, source.files@, dest_entries@),
{
    if !scan_complete {
        return Err(SyncError::IncompleteScan(incomplete_scan_message(scan_errors)));
    }
    let ghost files = source.files@;
    let mut known = StringHashSet::new();
    let mut i: usize = 0;
    while i < source.files.len()
        invariant
            files == source.files@,
            i <= files.len(),
            known@ == Set::new(|p: Seq<char>| exists|j: int| 0 <= j < i && (#[trigger] files[j]).path@ == p),
        decreases files.len() - i,
    {
        known.insert(source.files[i].path.clone());
        proof {
            assert(known@ =~= Set::new(|p: Seq<char>| exists|j: int| 0 <= j < i + 1 && (#[trigger] files[j]).path@ == p)) by {
                assert forall|p: Seq<char>| known@.contains(p) implies (exists|j: int| 0 <= j < i + 1 && (#[trigger] files[j]).path@ == p) by {
                    if p == files[i as int].path@ {
                    } else {
                        let j = choose|j: int| 0 <= j < i && (#[trigger] files[j]).path@ == p;
                    }
                }
            }
        }
        i += 1;
    }
    assert(known@ =~= path_set(files));
    let mut r: Vec<usize> = Vec::new();
    let mut k: usize = 0;
    while k < dest_entries.len()
        invariant
            known@ == path_set(files),
            files == source.files@,
            k <= dest_entries@.len(),
            forall|a: int| 0 <= a < r@.len() ==> r@[a] < k && !path_set(files).contains(dest_entries@[r@[a] as int]@),
            forall|a: int, b: int| 0 <= a < b < r@.len() ==> r@[a] < r@[b],
            forall|j: int| 0 <= j < k && !path_set(files).contains(dest_entries@[j]@) ==> r@.contains(j as usize),
        decreases dest_entries@.len() - k,
    {
        if !known.contains(dest_entries[k].as_str()) {
            let ghost r0 = r@;
            r.push(k);
            proof {
                assert(r@[r@.len() - 1] == k);
                assert forall|j: int| 0 <= j <= k && !path_set(files).contains(dest_entries@[j]@) implies r@.contains(j as usize) by {
                    if j < k {
                        let a = choose|a: int| 0 <= a < r0.len() && r0[a] == j as usize;
                        assert(r@[a] == r0[a]);
                    }
                }
            }
        }
        k += 1;
    }
    Ok(r)
}

/// Bytes of the manifest entries at `positions`.
pub open spec fn sizes_at(files: Seq<FileInfo>, positions: Seq<usize>) -> int
    decreases positions.len(),
{
    if positions.len() == 0 {
        0
    } else {
        sizes_at(files, positions.drop_last()) + files[positions.last() as int].size
    }
}

proof fn lemma_sizes_prefix_le(files: Seq<FileInfo>, positions: Seq<usize>, n: int)
    requires
        0 <= n <= positions.len(),
    ensures
        0 <= sizes_at(files, positions.subrange(0, n)) <= sizes_at(files, positions),
    decreases positions.len() - n,
{
    if n < positions.len() {
        lemma_sizes_prefix_le(files, positions, n + 1);
        assert(positions.subrange(0, n + 1).drop_last() =~= positions.subrange(0, n));
    } else {
        assert(positions.subrange(0, n) =~= positions);
    }
    lemma_sizes_nonneg(files, positions.subrange(0, n));
}

proof fn lemma_sizes_nonneg(files: Seq<FileInfo>, positions: Seq<usize>)
    ensures
        0 <= sizes_at(files, positions),
    decreases positions.len(),
{
    if positions.len() > 0 {
        lemma_sizes_nonneg(files, positions.drop_last());
    }
}

/// A fresh pending record for manifest entry `f` under the two roots.
pub open spec fn fresh_record(r: FileTransferState, f: FileInfo, source_root: Seq<char>, dest_root: Seq<char>) -> bool {
    &&& r.source_path@ == joined(source_root, f.path@)
    &&& r.dest_path@ == joined(dest_root, f.path@)
    &&& r.total_bytes == f.size
    &&& r.bytes_transferred == 0
    &&& r.last_verified_offset == 0
    &&& r.last_block_hash.is_none()
    &&& r.source_mtime == f.modified
    &&& r.status == TransferStatus::Pending
    &&& r.error.is_none()
}

/// Gives each planned entry (positions into the manifest) a fresh pending
/// record keyed by its absolute source path, unless it has one already.
/// Existing records stay as they are. It succeeds whenever the record's file
/// count and byte total can take all the entries, and otherwise stops and
/// returns `false`.
pub fn seed_records(
    state: &mut TransferState,
    manifest: &DirectoryInfo,
    positions: &Vec<usize>,
    source_root: &str,
    dest_root: &str,
) -> (ok: bool)
    requires
        old(state).wf(),
        forall|k: int| 0 <= k < positions@.len() ==> positions@[k] < manifest.files@.len(),
    ensures
        final(state).wf(),
        final(state).status == old(state).status,
        old(state).total_files + positions@.len() <= usize::MAX && old(state).total_bytes + sizes_at(
            manifest.files@,
            positions@,
        ) <= u64::MAX ==> ok,
        final(state).files@.len() >= old(state).files@.len(),
        final(state).files@.subrange(0, old(state).files@.len() as int) == old(state).files@,
        forall|i: int| old(state).files@.len() <= i < final(state).files@.len() ==> exists|k: int|
            0 <= k < positions@.len() && fresh_record(
                #[trigger] final(state).files@[i],
                manifest.files@[positions@[k] as int],
                source_root@,
                dest_root@,
            ),
        ok ==> forall|k: int| 0 <= k < positions@.len() ==> final(state).position_of(
            joined(source_root@, manifest.files@[positions@[k] as int].path@),
        ).is_some(),
{
    let ghost s0 = state.files@;
    let ghost n0 = state.files@.len();
    let ghost files = manifest.files@;
    let mut k: usize = 0;
    while k < positions.len()
        invariant
            state.wf(),
            state.status == old(state).status,
            s0 == old(state).files@,
            n0 == s0.len(),
            files == manifest.files@,
            k <= positions@.len(),
            forall|j: int| 0 <= j < positions@.len() ==> positions@[j] < files.len(),
            state.total_files <= old(state).total_files + k,
            state.total_bytes <= old(state).total_bytes + sizes_at(files, positions@.subrange(0, k as int)),
            state.files@.len() >= n0,
            state.files@.subrange(0, n0 as int) == s0,
            forall|i: int| n0 <= i < state.files@.len() ==> exists|j: int|
                0 <= j < positions@.len() && fresh_record(
                    #[trigger] state.files@[i],
                    files[positions@[j] as int],
                    source_root@,
                    dest_root@,
                ),
            forall|j: int| 0 <= j < k ==> state.position_of(
                joined(source_root@, files[positions@[j] as int].path@),
            ).is_some(),
        decreases positions@.len() - k,
    {
        let f = &manifest.files[positions[k]];
        proof {
            assert(positions@.subrange(0, k + 1).drop_last() =~= positions@.subrange(0, k as int));
            lemma_sizes_prefix_le(files, positions@, k + 1);
            lemma_sizes_nonneg(files, positions@.subrange(0, k as int));
        }
        if state.total_files == usize::MAX || f.size > u64::MAX - state.total_bytes {
            return false;
        }
        let record = FileTransferState::new(
            join(source_root, f.path.as_str()),
            join(dest_root, f.path.as_str()),
            f.size,
            f.modified,
        );
        assert(fresh_record(record, files[positions@[k as int] as int], source_root@, dest_root@));
        let ghost before = state.files@;
        let ghost key = record.source_path@;
        let ghost rec = record;
        state.add_file(record);
        proof {
            let after = state.files@;
            assert(after.subrange(0, n0 as int) =~= before.subrange(0, n0 as int)) by {
                assert forall|x: int| 0 <= x < n0 implies after[x] == before[x] by {}
            }
            assert forall|i: int| n0 <= i < after.len() implies exists|j: int|
                0 <= j < positions@.len() && fresh_record(
                    #[trigger] after[i],
                    files[positions@[j] as int],
                    source_root@,
                    dest_root@,
                ) by {
                if i < before.len() {
                    assert(after[i] == before[i]);
                } else {
                    assert(after[i] == rec);
                    assert(fresh_record(after[i], files[positions@[k as int] as int], source_root@, dest_root@));
                }
            }
            assert forall|j: int| 0 <= j < k + 1 implies state.position_of(
                joined(source_root@, files[positions@[j] as int].path@),
            ).is_some() by {
                let p = joined(source_root@, files[positions@[j] as int].path@);
                if j < k {
                    let w = choose|w: int| 0 <= w < before.len() && before[w].source_path@ == p;
                    assert(after[w] == before[w]);
                } else if exists|w: int| 0 <= w < before.len() && before[w].source_path@ == key {
                    let w = choose|w: int| 0 <= w < before.len() && before[w].source_path@ == key;
                    assert(after[w] == before[w]);
                } else {
                    assert(after[after.len() - 1].source_path@ == key);
                }
            }
        }
        k += 1;
    }
    true
}

/// The key of a file's record: `rel` under the source root `root`.
pub fn record_path(root: &str, rel: &str) -> (r: String)
    ensures
        r@ == joined(root@, rel@),
{
    join(root, rel)
}

/// A file still to copy in a resumed run: its manifest position and the
/// offset the copy restarts from.
#[derive(Debug, Clone, Copy, PartialEq, Eq, Structural)]
pub struct ResumeItem {
    pub index: usize,
    pub offset: u64,
}

/// Whether the record keeps `src` from being copied again: it is completed.
pub open spec fn already_done(state: TransferState, src: Seq<char>) -> bool {
    match state.position_of(src) {
        Some(i) => state.files@[i].status == TransferStatus::Completed,
        None => false,
    }
}

/// The restart offset for `src`: the one its record gives, provided the
/// destination already holds that many bytes (`dest_len`); zero otherwise,
/// or without a record.
pub open spec fn offset_for(state: TransferState, src: Seq<char>, dest_len: u64) -> int {
    match state.position_of(src) {
        Some(i) => if resume_offset_of(state.files@[i].last_verified_offset) <= dest_len {
            resume_offset_of(state.files@[i].last_verified_offset)
        } else {
            0
        },
        None => 0,
    }
}

/// Whether a manifest entry is still to be copied in a resumed run.
pub open spec fn to_resume(f: FileInfo, root: Seq<char>, state: TransferState, globs: Seq<Seq<char>>) -> bool {
    !f.is_dir && !excluded_by(globs, f.path@) && !already_done(state, joined(root, f.path@))
}

/// The files a resumed run copies, in manifest order: regular entries that
/// are not excluded and whose record is not completed, each with the restart
/// offset of its record when the destination (of length `dest_lens[i]`, 0
/// when absent) holds that many bytes, else from the start.
pub fn files_to_resume(
    manifest: &DirectoryInfo,
    state: &TransferState,
    exclusion: Option<&ExcludeMatcher>,
    dest_lens: &Vec<u64>,
) -> (r: Vec<ResumeItem>)
    requires
        state.wf(),
        dest_lens@.len() == manifest.files@.len(),
        exclusion.is_some() ==> exclusion.unwrap().wf(),
    ensures
        forall|k: int| 0 <= k < r@.len() ==> {
            &&& r@[k].index < manifest.files@.len()
            &&& to_resume(manifest.files@[r@[k].index as int], state.source_path@, *state, globs_of(match exclusion { Some(m) => Some(*m), None => None }))
            &&& r@[k].offset == offset_for(*state, joined(state.source_path@, manifest.files@[r@[k].index as int].path@), dest_lens@[r@[k].index as int])
        },
        forall|a: int, b: int| 0 <= a < b < r@.len() ==> r@[a].index < r@[b].index,
        forall|i: int| 0 <= i < manifest.files@.len() && to_resume(manifest.files@[i], state.source_path@, *state, globs_of(match exclusion { Some(m) => Some(*m), None => None }))
            ==> exists|k: int| 0 <= k < r@.len() && r@[k].index == i,
{
    let ghost matcher = match exclusion { Some(m) => Some(*m), None => None };
    let ghost files = manifest.files@;
    let ghost pats = globs_of(matcher);
    let mut r: Vec<ResumeItem> = Vec::new();
    let mut i: usize = 0;
    while i < manifest.files.len()
        invariant
            state.wf(),
            files == manifest.files@,
            dest_lens@.len() == files.len(),
            matcher == (match exclusion { Some(m) => Some(*m), None => None }),
            pats == globs_of(matcher),
            matcher.is_some() ==> matcher.unwrap().wf(),
            i <= files.len(),
            forall|k: int| 0 <= k < r@.len() ==> {
                &&& r@[k].index < i
                &&& to_resume(files[r@[k].index as int], state.source_path@, *state, pats)
                &&& r@[k].offset == offset_for(*state, joined(state.source_path@, files[r@[k].index as int].path@), dest_lens@[r@[k].index as int])
            },
            forall|a: int, b: int| 0 <= a < b < r@.len() ==> r@[a].index < r@[b].index,
            forall|j: int| 0 <= j < i && to_resume(files[j], state.source_path@, *state, pats)
                ==> exists|k: int| 0 <= k < r@.len() && r@[k].index == j,
        decreases files.len() - i,
    {
        let f = &manifest.files[i];
        if !f.is_dir {
            proof {
                lemma_matcher_excludes_by_globs(f.path@, matcher);
            }
            if !should_exclude(f.path.as_str(), exclusion) {
                let src = join(state.source_path.as_str(), f.path.as_str());
                let (done, offset) = match state.find_file(src.as_str()) {
                    Some(p) => {
                        let o = state.files[p].get_resume_offset();
                        (state.files[p].status == TransferStatus::Completed, if o <= dest_lens[i] { o } else { 0 })
                    },
                    None => (false, 0),
                };
                if !done {
                    let ghost r0 = r@;
                    r.push(ResumeItem { index: i, offset });
                    proof {
                        assert forall|j: int| 0 <= j <= i && to_resume(files[j], state.source_path@, *state, pats)
                            implies exists|k: int| 0 <= k < r@.len() && r@[k].index == j by {
                            if j < i {
                                let k = choose|k: int| 0 <= k < r0.len() && r0[k].index == j;
                                assert(r@[k] == r0[k]);
                            } else {
                                assert(r@[r@.len() - 1].index == j);
                            }
                        }
                    }
                }
            }
        }
        i += 1;
    }
    r
}

/// Totals of one run.
#[derive(Debug, Clone)]
pub struct SyncResult_ {
    pub files_total: usize,
    pub files_copied: usize,
    pub files_skipped: usize,
    pub files_failed: usize,
    pub bytes_total: u64,
    pub bytes_copied: u64,
    pub duration_ms: u64,
    pub errors: Vec<String>,
}

impl SyncResult_ {
    /// All counts zero and no error.
    pub fn new() -> (r: SyncResult_)
        ensures
            r.files_total == 0 && r.files_copied == 0 && r.files_skipped == 0 && r.files_failed == 0,
            r.bytes_total == 0 && r.bytes_copied == 0 && r.duration_ms == 0,
            r.errors@.len() == 0,
    {
        SyncResult_ {
            files_total: 0,
            files_copied: 0,
            files_skipped: 0,
            files_failed: 0,
            bytes_total: 0,
            bytes_copied: 0,
            duration_ms: 0,
            errors: Vec::new(),
        }
    }

    /// A summary that starts from the manifest's totals.
    pub fn for_manifest(manifest: &DirectoryInfo) -> (r: SyncResult_)
        ensures
            r.files_total == manifest.file_count,
            r.bytes_total == manifest.total_size,
            r.files_copied == 0 && r.files_skipped == 0 && r.files_failed == 0,
            r.bytes_copied == 0 && r.duration_ms == 0,
            r.errors@.len() == 0,
    {
        let mut r = SyncResult_::new();
        r.files_total = manifest.file_count;
        r.bytes_total = manifest.total_size;
        r
    }

    /// Counts one copied file of `bytes` new bytes.
    pub fn record_copied(&mut self, bytes: u64)
        requires
            old(self).files_copied < usize::MAX,
            old(self).bytes_copied + bytes <= u64::MAX,
        ensures
            final(self).files_copied == old(self).files_copied + 1,
            final(self).bytes_copied == old(self).bytes_copied + bytes,
            final(self).files_total == old(self).files_total,
            final(self).files_skipped == old(self).files_skipped,
            final(self).files_failed == old(self).files_failed,
            final(self).bytes_total == old(self).bytes_total,
            final(self).errors@ == old(self).errors@,
    {
        self.files_copied = self.files_copied + 1;
        self.bytes_copied = self.bytes_copied + bytes;
    }

    /// Counts `n` skipped entries.
    pub fn record_skipped(&mut self, n: usize)
        requires
            old(self).files_skipped + n <= usize::MAX,
        ensures
            final(self).files_skipped == old(self).files_skipped + n,
            final(self).files_copied == old(self).files_copied,
            final(self).files_total == old(self).files_total,
            final(self).files_failed == old(self).files_failed,
            final(self).bytes_copied == old(self).bytes_copied,
            final(self).bytes_total == old(self).bytes_total,
            final(self).errors@ == old(self).errors@,
    {
        self.files_skipped = self.files_skipped + n;
    }

    /// Counts one failed file and keeps its message.
    pub fn record_failed(&mut self, message: String)
        requires
            old(self).files_failed < usize::MAX,
        ensures
            final(self).files_failed == old(self).files_failed + 1,
            final(self).errors@ == old(self).errors@.push(message),
            final(self).files_copied == old(self).files_copied,
            final(self).files_skipped == old(self).files_skipped,
            final(self).files_total == old(self).files_total,
            final(self).bytes_copied == old(self).bytes_copied,
            final(self).bytes_total == old(self).bytes_total,
    {
        self.files_failed = self.files_failed + 1;
        self.errors.push(message);
    }

    /// Keeps a message that fails no file, such as a refused orphan sweep.
    pub fn record_error(&mut self, message: String)
        ensures
            final(self).errors@ == old(self).errors@.push(message),
            final(self).files_failed == old(self).files_failed,
            final(self).files_copied == old(self).files_copied,
            final(self).files_skipped == old(self).files_skipped,
            final(self).files_total == old(self).files_total,
            final(self).bytes_copied == old(self).bytes_copied,
            final(self).bytes_total == old(self).bytes_total,
    {
        self.errors.push(message);
    }
}

/// The status a run ends in: cancelled when cancelled; failed when files
/// were attempted and every one of them failed (none copied, none skipped);
/// completed otherwise, failures then showing in the summary's errors.
pub open spec fn final_status_spec(cancelled: bool, files_copied: usize, files_skipped: usize, files_failed: usize) -> TransferStatus {
    if cancelled {
        TransferStatus::Cancelled
    } else if files_failed > 0 && files_copied == 0 && files_skipped == 0 {
        TransferStatus::Failed
    } else {
        TransferStatus::Completed
    }
}

pub fn final_status(cancelled: bool, files_copied: usize, files_skipped: usize, files_failed: usize) -> (r: TransferStatus)
    ensures
        r == final_status_spec(cancelled, files_copied, files_skipped, files_failed),
{
    if cancelled {
        TransferStatus::Cancelled
    } else if files_failed > 0 && files_copied == 0 && files_skipped == 0 {
        TransferStatus::Failed
    } else {
        TransferStatus::Completed
    }
}

/// The status a resumed run ends in: cancelled when cancelled, failed when
/// any file failed, completed otherwise.
pub open spec fn resume_status_spec(cancelled: bool, files_failed: usize) -> TransferStatus {
    if cancelled {
        TransferStatus::Cancelled
    } else if files_failed > 0 {
        TransferStatus::Failed
    } else {
        TransferStatus::Completed
    }
}

pub fn resume_final_status(cancelled: bool, files_failed: usize) -> (r: TransferStatus)
    ensures
        r == resume_status_spec(cancelled, files_failed),
{
    if cancelled {
        TransferStatus::Cancelled
    } else if files_failed > 0 {
        TransferStatus::Failed
    } else {
        TransferStatus::Completed
    }
}

/// An `Unchanged` file is never written: whatever the options, it is skipped.
pub proof fn lemma_unchanged_is_skipped(size: u64, modified: Timestamp, dest: Option<DestMeta>, o: SyncOptions)
    requires
        delta_of(size, modified, dest).status == DeltaStatus::Unchanged,
    ensures
        action_spec(delta_of(size, modified, dest), o) == FileAction::Skip,
{
}

/// Under the default policy every file that is new or differs from the
/// destination is copied over the destination path, and only files that
/// already match by size and time are skipped.
pub proof fn lemma_default_policy_copies_changed(size: u64, modified: Timestamp, dest: Option<DestMeta>, o: SyncOptions)
    requires
        o.is_default_policy(),
    ensures
        action_spec(delta_of(size, modified, dest), o) == FileAction::Copy <==> delta_of(size, modified, dest).status
            != DeltaStatus::Unchanged,
        action_spec(delta_of(size, modified, dest), o) != FileAction::CopyRenamed,
{
}

/// A second run after a faithful copy (same size, same modification time)
/// sees the file as `Unchanged` and copies nothing.
pub proof fn lemma_second_run_copies_nothing(size: u64, modified: Timestamp, o: SyncOptions)
    ensures
        delta_of(size, modified, Some(DestMeta { size, modified })).status == DeltaStatus::Unchanged,
        action_spec(delta_of(size, modified, Some(DestMeta { size, modified })), o) == FileAction::Skip,
{
}

/// After a faithful copy, a later run under the default policy copies a file
/// exactly when it was mutated: its size changed or it became newer.
pub proof fn lemma_rerun_copies_exactly_mutated(
    size: u64,
    modified: Timestamp,
    copied: DestMeta,
    o: SyncOptions,
)
    requires
        o.is_default_policy(),
    ensures
        action_spec(delta_of(size, modified, Some(copied)), o) == FileAction::Copy <==> (size != copied.size
            || copied.modified.before(modified)),
{
}

/// Exclusion soundness: an entry whose path, file name or a normal component
/// matches an exclusion glob is never planned as a directory, symlink or file.
pub proof fn lemma_excluded_never_planned(manifest: DirectoryInfo, options: SyncOptions, plan: SyncPlan, i: usize)
    requires
        lists_class(plan.dirs@, manifest.files@, options.follow_symlinks, globs_of(plan.exclusion), EntryClass::Dir),
        lists_class(plan.symlinks@, manifest.files@, options.follow_symlinks, globs_of(plan.exclusion), EntryClass::Symlink),
        lists_class(plan.regular@, manifest.files@, options.follow_symlinks, globs_of(plan.exclusion), EntryClass::Regular),
        0 <= i < manifest.files@.len(),
        excluded_by(globs_of(plan.exclusion), manifest.files@[i as int].path@),
    ensures
        !plan.dirs@.contains(i),
        !plan.symlinks@.contains(i),
        !plan.regular@.contains(i),
{
    let pats = globs_of(plan.exclusion);
    let follow = options.follow_symlinks;
    assert(class_of(manifest.files@[i as int], follow, pats) == EntryClass::Excluded);
    if plan.dirs@.contains(i) {
        let k = choose|k: int| 0 <= k < plan.dirs@.len() && plan.dirs@[k] == i;
        assert(class_of(manifest.files@[plan.dirs@[k] as int], follow, pats) == EntryClass::Dir);
    }
    if plan.symlinks@.contains(i) {
        let k = choose|k: int| 0 <= k < plan.symlinks@.len() && plan.symlinks@[k] == i;
        assert(class_of(manifest.files@[plan.symlinks@[k] as int], follow, pats) == EntryClass::Symlink);
    }
    if plan.regular@.contains(i) {
        let k = choose|k: int| 0 <= k < plan.regular@.len() && plan.regular@[k] == i;
        assert(class_of(manifest.files@[plan.regular@[k] as int], follow, pats) == EntryClass::Regular);
    }
}

/// Without exclusion patterns every regular source file is planned for the
/// copy phase (symlinks too when they are followed), so each one is then
/// either copied or found already matching at the destination.
pub proof fn lemma_every_file_planned(manifest: DirectoryInfo, options: SyncOptions, plan: SyncPlan, i: usize)
    requires
        lists_class(plan.regular@, manifest.files@, options.follow_symlinks, globs_of(plan.exclusion), EntryClass::Regular),
        compiled_all(texts(options.exclude_patterns@)).len() == 0 ==> plan.exclusion.is_none(),
        options.exclude_patterns@.len() == 0,
        0 <= i < manifest.files@.len(),
        !manifest.files@[i as int].is_dir,
        !manifest.files@[i as int].is_symlink || options.follow_symlinks,
    ensures
        plan.regular@.contains(i),
{
    assert(compiled_all(texts(options.exclude_patterns@)) =~= Seq::empty());
    lemma_no_globs(manifest.files@[i as int].path@);
    assert(class_of(manifest.files@[i as int], options.follow_symlinks, globs_of(plan.exclusion)) == EntryClass::Regular);
}

/// Exclusion soundness for the user's patterns: when the exclusion set
/// builds, an entry whose path, file name or a normal component matches the
/// compiled form of some pattern is never planned.
pub proof fn lemma_pattern_excludes(manifest: DirectoryInfo, options: SyncOptions, plan: SyncPlan, i: usize, k: int)
    requires
        plan.exclusion.is_some() ==> globs_of(plan.exclusion) == compiled_all(texts(options.exclude_patterns@)),
        plan.exclusion.is_some() == (compiled_all(texts(options.exclude_patterns@)).len() > 0 && glob_set_builds(
            compiled_all(texts(options.exclude_patterns@)),
        )),
        lists_class(plan.dirs@, manifest.files@, options.follow_symlinks, globs_of(plan.exclusion), EntryClass::Dir),
        lists_class(plan.symlinks@, manifest.files@, options.follow_symlinks, globs_of(plan.exclusion), EntryClass::Symlink),
        lists_class(plan.regular@, manifest.files@, options.follow_symlinks, globs_of(plan.exclusion), EntryClass::Regular),
        0 <= i < manifest.files@.len(),
        0 <= k < options.exclude_patterns@.len(),
        compiled_form(options.exclude_patterns@[k]@).is_some(),
        glob_set_builds(compiled_all(texts(options.exclude_patterns@))),
        excluded_by(seq![compiled_form(options.exclude_patterns@[k]@).unwrap()], manifest.files@[i as int].path@),
    ensures
        !plan.dirs@.contains(i),
        !plan.symlinks@.contains(i),
        !plan.regular@.contains(i),
{
    let ps = texts(options.exclude_patterns@);
    assert(ps[k] == options.exclude_patterns@[k]@);
    lemma_compiled_contains(ps, k);
    let g = compiled_form(ps[k]).unwrap();
    assert(compiled_all(ps).len() > 0);
    lemma_excluded_by_member(g, compiled_all(ps), manifest.files@[i as int].path@);
    lemma_excluded_never_planned(manifest, options, plan, i);
}

} // verus!
