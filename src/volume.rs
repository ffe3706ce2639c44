//! Mounted volumes: which volume a path lives on, which transfers use which
//! volume, what changed between two polls, and when a volume counts as lost.

use vstd::prelude::*;
use vstd::string::*;
use crate::error::{platform_errno_table, ErrnoTable, IoFailure, SyncError};
use crate::paths::{path_starts_with, path_starts_with_spec};
use crate::text::{str_eq, texts};

verus! {

/// A mounted volume.
#[derive(Debug, Clone)]
pub struct VolumeInfo {
    pub mount_point: String,
    pub name: String,
    pub total_bytes: u64,
    pub available_bytes: u64,
    pub is_removable: bool,
    pub fs_type: Option<String>,
    pub is_mounted: bool,
}

/// A change of a volume's state.
#[derive(Debug, Clone)]
pub enum VolumeEvent {
    Mounted { volume: VolumeInfo },
    Unmounted { mount_point: String, name: String, affected_transfers: Vec<String> },
    UnmountPending { mount_point: String, name: String },
    Inaccessible { mount_point: String, name: String, error: String },
}

/// How the watcher polls and debounces.
#[derive(Debug, Clone)]
pub struct VolumeWatcherConfig {
    pub poll_interval_ms: u64,
    pub watch_paths: Vec<String>,
    pub include_system_volumes: bool,
    pub debounce_ms: u64,
}

impl VolumeWatcherConfig {
    /// Poll every 2 s, debounce 500 ms, system volumes left out.
    pub fn new(watch_paths: Vec<String>) -> (r: VolumeWatcherConfig)
        ensures
            r.poll_interval_ms == 2000,
            r.debounce_ms == 500,
            !r.include_system_volumes,
            r.watch_paths@ == watch_paths@,
    {
        VolumeWatcherConfig { poll_interval_ms: 2000, watch_paths, include_system_volumes: false, debounce_ms: 500 }
    }
}

/// The volume a path lives on: among the volumes whose mount point is a
/// leading run of the path's components, the one with the longest mount
/// point (the last such on ties).
pub open spec fn best_volume(p: Seq<char>, vols: Seq<VolumeInfo>) -> Option<int>
    decreases vols.len(),
{
    if vols.len() == 0 {
        None
    } else {
        let prev = best_volume(p, vols.drop_last());
        let i = vols.len() - 1;
        if path_starts_with_spec(p, vols[i].mount_point@) && (prev.is_none()
            || vols[prev.unwrap()].mount_point@.len() <= vols[i].mount_point@.len()) {
            Some(i)
        } else {
            prev
        }
    }
}

proof fn lemma_best_volume_in_range(p: Seq<char>, vols: Seq<VolumeInfo>)
    ensures
        best_volume(p, vols).is_some() ==> 0 <= best_volume(p, vols).unwrap() < vols.len(),
    decreases vols.len(),
{
    if vols.len() > 0 {
        lemma_best_volume_in_range(p, vols.drop_last());
    }
}

/// Finds the volume of `p` among `volumes`.
pub fn find_volume_for_path(p: &str, volumes: &[VolumeInfo]) -> (r: Option<usize>)
    ensures
        r.is_some() == best_volume(p@, volumes@).is_some(),
        r.is_some() ==> r.unwrap() as int == best_volume(p@, volumes@).unwrap(),
        r.is_some() ==> r.unwrap() < volumes@.len(),
{
    let mut best: Option<usize> = None;
    let mut i: usize = 0;
    while i < volumes.len()
        invariant
            i <= volumes@.len(),
            best.is_some() == best_volume(p@, volumes@.subrange(0, i as int)).is_some(),
            best.is_some() ==> best.unwrap() as int == best_volume(p@, volumes@.subrange(0, i as int)).unwrap(),
            best.is_some() ==> best.unwrap() < i,
        decreases volumes@.len() - i,
    {
        proof {
            let s = volumes@.subrange(0, i + 1);
            assert(s.drop_last() =~= volumes@.subrange(0, i as int));
        }
        if path_starts_with(p, volumes[i].mount_point.as_str()) {
            let better = match best {
                None => true,
                Some(b) => volumes[b].mount_point.unicode_len() <= volumes[i].mount_point.unicode_len(),
            };
            if better {
                best = Some(i);
            }
        }
        i += 1;
    }
    proof {
        assert(volumes@.subrange(0, volumes@.len() as int) =~= volumes@);
    }
    best
}

/// One transfer and the mount points of the volumes it uses.
pub struct Registration {
    pub transfer_id: String,
    pub volumes: Vec<String>,
}

pub open spec fn reg_has(r: Registration, m: Seq<char>) -> bool {
    exists|k: int| 0 <= k < r.volumes@.len() && (#[trigger] r.volumes@[k])@ == m
}

/// The ids of the registrations that use the volume `m`, in registration order.
pub open spec fn affected_spec(regs: Seq<Registration>, m: Seq<char>) -> Seq<Seq<char>>
    decreases regs.len(),
{
    if regs.len() == 0 {
        Seq::empty()
    } else if reg_has(regs.last(), m) {
        affected_spec(regs.drop_last(), m).push(regs.last().transfer_id@)
    } else {
        affected_spec(regs.drop_last(), m)
    }
}

/// The mount points of the volumes of `paths`, in path order, leaving out
/// paths on no known volume.
pub open spec fn mounts_for(paths: Seq<String>, vols: Seq<VolumeInfo>) -> Seq<Seq<char>>
    decreases paths.len(),
{
    if paths.len() == 0 {
        Seq::empty()
    } else {
        match best_volume(paths.last()@, vols) {
            Some(i) => mounts_for(paths.drop_last(), vols).push(vols[i].mount_point@),
            None => mounts_for(paths.drop_last(), vols),
        }
    }
}

pub open spec fn ids_unique(regs: Seq<Registration>) -> bool {
    forall|a: int, b: int| 0 <= a < regs.len() && 0 <= b < regs.len() && a != b ==> regs[a].transfer_id@ != regs[b].transfer_id@
}

/// Which transfers use which volumes.
pub struct TransferVolumeMap {
    pub registrations: Vec<Registration>,
}

impl TransferVolumeMap {
    pub open spec fn wf(self) -> bool {
        ids_unique(self.registrations@)
    }

    pub open spec fn position_of(self, id: Seq<char>) -> Option<int> {
        if exists|i: int| 0 <= i < self.registrations@.len() && self.registrations@[i].transfer_id@ == id {
            Some(choose|i: int| 0 <= i < self.registrations@.len() && self.registrations@[i].transfer_id@ == id)
        } else {
            None
        }
    }

    pub fn new() -> (r: TransferVolumeMap)
        ensures
            r.wf(),
            r.registrations@.len() == 0,
    {
        TransferVolumeMap { registrations: Vec::new() }
    }

    fn find(&self, id: &str) -> (r: Option<usize>)
        requires
            self.wf(),
        ensures
            r.is_some() == self.position_of(id@).is_some(),
            r.is_some() ==> r.unwrap() as int == self.position_of(id@).unwrap() && r.unwrap() < self.registrations@.len(),
    {
        let mut i: usize = 0;
        while i < self.registrations.len()
            invariant
                self.wf(),
                i <= self.registrations@.len(),
                forall|k: int| 0 <= k < i ==> self.registrations@[k].transfer_id@ != id@,
            decreases self.registrations@.len() - i,
        {
            if str_eq(self.registrations[i].transfer_id.as_str(), id) {
                proof {
                    let regs = self.registrations@;
                    assert(regs[i as int].transfer_id@ == id@);
                    assert(exists|j: int| 0 <= j < regs.len() && regs[j].transfer_id@ == id@);
                    let j = choose|j: int| 0 <= j < regs.len() && regs[j].transfer_id@ == id@;
                    if j != i as int {
                        assert(regs[j].transfer_id@ != regs[i as int].transfer_id@);
                    }
                }
                return Some(i);
            }
            i += 1;
        }
        None
    }

    /// Forgets a transfer (it completed, failed or was cancelled).
    pub fn unregister_transfer(&mut self, transfer_id: &str)
        requires
            old(self).wf(),
        ensures
            final(self).wf(),
            match old(self).position_of(transfer_id@) {
                Some(i) => final(self).registrations@ == old(self).registrations@.remove(i),
                None => final(self).registrations@ == old(self).registrations@,
            },
            final(self).position_of(transfer_id@).is_none(),
    {
        match self.find(transfer_id) {
            Some(i) => {
                let ghost before = self.registrations@;
                self.registrations.remove(i);
                proof {
                    let after = self.registrations@;
                    assert forall|a: int, b: int| 0 <= a < after.len() && 0 <= b < after.len() && a != b implies
                        after[a].transfer_id@ != after[b].transfer_id@ by {
                        let a0 = if a < i { a } else { a + 1 };
                        let b0 = if b < i { b } else { b + 1 };
                        assert(after[a] == before[a0] && after[b] == before[b0]);
                    }
                    if exists|k: int| 0 <= k < after.len() && after[k].transfer_id@ == transfer_id@ {
                        let k = choose|k: int| 0 <= k < after.len() && after[k].transfer_id@ == transfer_id@;
                        let k0 = if k < i { k } else { k + 1 };
                        assert(after[k] == before[k0]);
                        assert(before[i as int].transfer_id@ == transfer_id@);
                    }
                }
            },
            None => {},
        }
    }

    /// Records that `transfer_id` uses the volumes of `paths`, replacing what
    /// it was registered with before.
    pub fn register_transfer(&mut self, transfer_id: &str, paths: &[String], known_volumes: &[VolumeInfo])
        requires
            old(self).wf(),
        ensures
            final(self).wf(),
            final(self).registrations@.len() >= 1,
            final(self).registrations@.drop_last() == match old(self).position_of(transfer_id@) {
                Some(i) => old(self).registrations@.remove(i),
                None => old(self).registrations@,
            },
            final(self).registrations@.last().transfer_id@ == transfer_id@,
            texts(final(self).registrations@.last().volumes@) == mounts_for(paths@, known_volumes@),
    {
        self.unregister_transfer(transfer_id);
        let mut volumes: Vec<String> = Vec::new();
        let mut i: usize = 0;
        while i < paths.len()
            invariant
                i <= paths@.len(),
                texts(volumes@) == mounts_for(paths@.subrange(0, i as int), known_volumes@),
            decreases paths@.len() - i,
        {
            proof {
                let s = paths@.subrange(0, i + 1);
                assert(s.drop_last() =~= paths@.subrange(0, i as int));
                lemma_best_volume_in_range(paths@[i as int]@, known_volumes@);
            }
            match find_volume_for_path(paths[i].as_str(), known_volumes) {
                Some(v) => {
                    volumes.push(known_volumes[v].mount_point.clone());
                    proof {
                        assert(texts(volumes@) =~= mounts_for(paths@.subrange(0, i + 1), known_volumes@));
                    }
                },
                None => {},
            }
            i += 1;
        }
        proof {
            assert(paths@.subrange(0, paths@.len() as int) =~= paths@);
        }
        let ghost before = self.registrations@;
        self.registrations.push(Registration { transfer_id: String::from_str(transfer_id), volumes });
        proof {
            let after = self.registrations@;
            assert(after.drop_last() =~= before);
            assert forall|a: int, b: int| 0 <= a < after.len() && 0 <= b < after.len() && a != b implies
                after[a].transfer_id@ != after[b].transfer_id@ by {
                if a < before.len() && b < before.len() {
                    assert(after[a] == before[a] && after[b] == before[b]);
                } else if a < before.len() {
                    assert(after[a] == before[a]);
                    if before[a].transfer_id@ == transfer_id@ {
                        assert(exists|k: int| 0 <= k < before.len() && before[k].transfer_id@ == transfer_id@);
                    }
                } else if b < before.len() {
                    assert(after[b] == before[b]);
                    if before[b].transfer_id@ == transfer_id@ {
                        assert(exists|k: int| 0 <= k < before.len() && before[k].transfer_id@ == transfer_id@);
                    }
                }
            }
        }
    }

    /// The transfers that use the volume mounted at `mount_point`.
    pub fn get_affected_transfers(&self, mount_point: &str) -> (r: Vec<String>)
        ensures
            texts(r@) == affected_spec(self.registrations@, mount_point@),
    {
        let mut r: Vec<String> = Vec::new();
        let mut i: usize = 0;
        while i < self.registrations.len()
            invariant
                i <= self.registrations@.len(),
                texts(r@) == affected_spec(self.registrations@.subrange(0, i as int), mount_point@),
            decreases self.registrations@.len() - i,
        {
            let ghost s = self.registrations@.subrange(0, i + 1);
            proof {
                assert(s.drop_last() =~= self.registrations@.subrange(0, i as int));
            }
            let reg = &self.registrations[i];
            let mut k: usize = 0;
            let mut found = false;
            while k < reg.volumes.len()
                invariant
                    k <= reg.volumes@.len(),
                    found == exists|j: int| 0 <= j < k && (#[trigger] reg.volumes@[j])@ == mount_point@,
                decreases reg.volumes@.len() - k,
            {
                if !found && str_eq(reg.volumes[k].as_str(), mount_point) {
                    found = true;
                }
                k += 1;
            }
            if found {
                r.push(reg.transfer_id.clone());
                proof {
                    assert(texts(r@) =~= affected_spec(s, mount_point@));
                }
            }
            i += 1;
        }
        proof {
            assert(self.registrations@.subrange(0, self.registrations@.len() as int) =~= self.registrations@);
        }
        r
    }
}

pub open spec fn has_mount(vols: Seq<VolumeInfo>, m: Seq<char>) -> bool {
    exists|k: int| 0 <= k < vols.len() && (#[trigger] vols[k]).mount_point@ == m
}

fn contains_mount(vols: &[VolumeInfo], m: &str) -> (r: bool)
    ensures
        r == has_mount(vols@, m@),
{
    let mut k: usize = 0;
    while k < vols.len()
        invariant
            k <= vols@.len(),
            forall|j: int| 0 <= j < k ==> (#[trigger] vols@[j]).mount_point@ != m@,
        decreases vols@.len() - k,
    {
        if str_eq(vols[k].mount_point.as_str(), m) {
            return true;
        }
        k += 1;
    }
    false
}

/// Positions, in order, of the volumes of `a` whose mount point `b` lacks.
pub open spec fn lists_missing(v: Seq<usize>, a: Seq<VolumeInfo>, b: Seq<VolumeInfo>) -> bool {
    &&& forall|k: int| 0 <= k < v.len() ==> v[k] < a.len() && !has_mount(b, a[v[k] as int].mount_point@)
    &&& forall|x: int, y: int| 0 <= x < y < v.len() ==> v[x] < v[y]
    &&& forall|i: int| 0 <= i < a.len() && !has_mount(b, a[i].mount_point@) ==> v.contains(i as usize)
}

/// The volumes of `a` whose mount point is absent from `b`.
pub fn missing_from(a: &[VolumeInfo], b: &[VolumeInfo]) -> (r: Vec<usize>)
    ensures
        lists_missing(r@, a@, b@),
{
    let mut r: Vec<usize> = Vec::new();
    let mut i: usize = 0;
    while i < a.len()
        invariant
            i <= a@.len(),
            forall|k: int| 0 <= k < r@.len() ==> r@[k] < i && !has_mount(b@, a@[r@[k] as int].mount_point@),
            forall|x: int, y: int| 0 <= x < y < r@.len() ==> r@[x] < r@[y],
            forall|j: int| 0 <= j < i && !has_mount(b@, a@[j].mount_point@) ==> r@.contains(j as usize),
        decreases a@.len() - i,
    {
        if !contains_mount(b, a[i].mount_point.as_str()) {
            let ghost r0 = r@;
            r.push(i);
            proof {
                assert(r@[r@.len() - 1] == i);
                assert forall|j: int| 0 <= j <= i && !has_mount(b@, a@[j].mount_point@) implies r@.contains(j as usize) by {
                    if j < i {
                        let k = choose|k: int| 0 <= k < r0.len() && r0[k] == j as usize;
                        assert(r@[k] == r0[k]);
                    }
                }
            }
        }
        i += 1;
    }
    r
}

/// What changed between two polls: positions of newly mounted volumes in
/// `current`, and of vanished ones in `known`.
pub struct VolumeDiff {
    pub mounted: Vec<usize>,
    pub removed: Vec<usize>,
}

pub fn diff_volumes(known: &[VolumeInfo], current: &[VolumeInfo]) -> (r: VolumeDiff)
    ensures
        lists_missing(r.mounted@, current@, known@),
        lists_missing(r.removed@, known@, current@),
{
    VolumeDiff { mounted: missing_from(current, known), removed: missing_from(known, current) }
}

/// Whether a probe of a volume leaves it usable: any failure but an I/O or
/// no-device error (a denied permission, say) is no disconnection.
pub open spec fn accessible_spec(failure: Option<IoFailure>, t: ErrnoTable) -> bool {
    match failure {
        None => true,
        Some(e) => !(e.raw_os_error == Some(t.io) || e.raw_os_error == Some(t.no_device)),
    }
}

pub fn volume_accessible(failure: &Option<IoFailure>, t: &ErrnoTable) -> (r: bool)
    ensures
        r == accessible_spec(*failure, *t),
{
    match failure {
        None => true,
        Some(e) => match e.raw_os_error {
            Some(c) => !(c == t.io || c == t.no_device),
            None => true,
        },
    }
}

/// Whether a volume whose directory read ended in `failure` is still usable,
/// under this platform's errno numbers.
pub fn can_access_volume(failure: &Option<IoFailure>) -> (r: bool)
    ensures
        exists|t: ErrnoTable| r == accessible_spec(*failure, t),
        failure.is_none() ==> r,
{
    let t = platform_errno_table();
    volume_accessible(failure, &t)
}

/// What a pre-sync check learned about a path: whether it exists, whether it
/// lies on a removable volume, and that volume's name.
pub struct PathProbe {
    pub exists: bool,
    pub removable: bool,
    pub device_name: Option<String>,
}

/// Both ends of a sync must be reachable: a missing source on a removable
/// volume is a disconnected drive, otherwise a missing source; a missing
/// destination (or parent of a destination yet to be made) likewise, or not
/// writable.
pub fn validate_volumes_for_sync(source: &str, source_probe: PathProbe, destination: &str, dest_probe: PathProbe) -> (r: Result<(), SyncError>)
    ensures
        r.is_ok() == (source_probe.exists && dest_probe.exists),
        !source_probe.exists && source_probe.removable ==> (r matches Err(SyncError::DriveDisconnected { path: p, device_name: d }) && p@ == source@ && d == source_probe.device_name),
        !source_probe.exists && !source_probe.removable ==> (r matches Err(SyncError::SourceNotFound(p)) && p@ == source@),
        source_probe.exists && !dest_probe.exists && dest_probe.removable ==> (r matches Err(SyncError::DriveDisconnected { path: p, device_name: d }) && p@ == destination@ && d == dest_probe.device_name),
        source_probe.exists && !dest_probe.exists && !dest_probe.removable ==> (r matches Err(SyncError::DestinationNotWritable(p)) && p@ == destination@),
{
    if !source_probe.exists {
        if source_probe.removable {
            return Err(SyncError::DriveDisconnected { path: String::from_str(source), device_name: source_probe.device_name });
        }
        return Err(SyncError::SourceNotFound(String::from_str(source)));
    }
    if !dest_probe.exists {
        if dest_probe.removable {
            return Err(SyncError::DriveDisconnected { path: String::from_str(destination), device_name: dest_probe.device_name });
        }
        return Err(SyncError::DestinationNotWritable(String::from_str(destination)));
    }
    Ok(())
}

} // verus!
