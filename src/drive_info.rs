//! Drive details read from the text that `diskutil`, `mount` and
//! `system_profiler` print: kind of drive, model, maker, network mounts.

use vstd::prelude::*;
use vstd::string::*;
use crate::text::{texts, trim, trimmed, contains, find, is_prefix, occurs_in, occurs_at, starts_with};

verus! {

/// The lines of a text, as `str::lines` splits it.
pub uninterp spec fn lines_of(s: Seq<char>) -> Seq<Seq<char>>;


/// A text in lower case, as `str::to_lowercase` gives it.
pub uninterp spec fn lower_of(s: Seq<char>) -> Seq<char>;

/// A text in upper case, as `str::to_uppercase` gives it.
pub uninterp spec fn upper_of(s: Seq<char>) -> Seq<char>;

/// Relies on `str::lines`.
#[verifier::external_body]
fn lines(s: &str) -> (r: Vec<String>)
    ensures
        texts(r@) == lines_of(s@),
{
    s.lines().map(|l| l.to_string()).collect()
}


/// Relies on `str::to_lowercase`.
#[verifier::external_body]
fn lowercase(s: &str) -> (r: String)
    ensures
        r@ == lower_of(s@),
{
    s.to_lowercase()
}

/// Relies on `str::to_uppercase`.
#[verifier::external_body]
fn uppercase(s: &str) -> (r: String)
    ensures
        r@ == upper_of(s@),
{
    s.to_uppercase()
}

#[derive(Debug, Clone, Copy, PartialEq, Eq, Structural)]
pub enum DriveType {
    Ssd,
    Hdd,
    Network,
    Unknown,
}

impl DriveType {
    pub open spec fn label_spec(self) -> Seq<char> {
        match self {
            DriveType::Ssd => "SSD"@,
            DriveType::Hdd => "HDD"@,
            DriveType::Network => "Network"@,
            DriveType::Unknown => "Unknown"@,
        }
    }

    /// The name shown for the kind of drive.
    pub fn label(&self) -> (r: &'static str)
        ensures
            r@ == self.label_spec(),
    {
        match self {
            DriveType::Ssd => "SSD",
            DriveType::Hdd => "HDD",
            DriveType::Network => "Network",
            DriveType::Unknown => "Unknown",
        }
    }
}

/// What `diskutil info` says of a volume.
pub struct DiskFacts {
    pub is_external: bool,
    pub is_removable: bool,
    pub drive_type: DriveType,
    pub model: Option<String>,
}

pub struct FactsView {
    pub is_external: bool,
    pub is_removable: bool,
    pub drive_type: DriveType,
    pub model: Option<Seq<char>>,
}

impl DiskFacts {
    pub open spec fn view(self) -> FactsView {
        FactsView {
            is_external: self.is_external,
            is_removable: self.is_removable,
            drive_type: self.drive_type,
            model: match self.model {
                Some(m) => Some(m@),
                None => None,
            },
        }
    }
}

/// The text between the first `:` of `t` and the next one (or the end).
pub open spec fn second_field(t: Seq<char>) -> Option<Seq<char>> {
    if occurs_in(":"@, t) {
        let i = choose|i: int| occurs_at(":"@, t, i) && forall|j: int| 0 <= j < i ==> !occurs_at(":"@, t, j);
        let rest = t.subrange(i + 1, t.len() as int);
        if occurs_in(":"@, rest) {
            let k = choose|k: int| occurs_at(":"@, rest, k) && forall|j: int| 0 <= j < k ==> !occurs_at(":"@, rest, j);
            Some(rest.subrange(0, k))
        } else {
            Some(rest)
        }
    } else {
        None
    }
}

/// How one trimmed line of `diskutil info` updates the facts.
pub open spec fn line_step(f: FactsView, t: Seq<char>) -> FactsView {
    if is_prefix("Removable Media:"@, t) {
        FactsView { is_removable: occurs_in("Removable"@, t), ..f }
    } else if is_prefix("Protocol:"@, t) {
        if occurs_in("USB"@, t) || occurs_in("Thunderbolt"@, t) {
            FactsView { is_external: true, ..f }
        } else {
            f
        }
    } else if is_prefix("Device Location:"@, t) {
        if occurs_in("External"@, t) {
            FactsView { is_external: true, ..f }
        } else {
            f
        }
    } else if is_prefix("Solid State:"@, t) {
        if occurs_in("Yes"@, t) {
            FactsView { drive_type: DriveType::Ssd, ..f }
        } else if occurs_in("No"@, t) {
            FactsView { drive_type: DriveType::Hdd, ..f }
        } else {
            f
        }
    } else if is_prefix("Device / Media Name:"@, t) {
        FactsView {
            model: match second_field(t) {
                Some(x) => Some(trimmed(x)),
                None => None,
            },
            ..f
        }
    } else if is_prefix("Media Type:"@, t) {
        let media = lower_of(t);
        if occurs_in("ssd"@, media) || occurs_in("solid"@, media) {
            FactsView { drive_type: DriveType::Ssd, ..f }
        } else if occurs_in("hdd"@, media) || occurs_in("rotational"@, media) {
            FactsView { drive_type: DriveType::Hdd, ..f }
        } else {
            f
        }
    } else {
        f
    }
}

pub open spec fn facts_fold(ls: Seq<Seq<char>>) -> FactsView
    decreases ls.len(),
{
    if ls.len() == 0 {
        FactsView { is_external: false, is_removable: false, drive_type: DriveType::Unknown, model: None }
    } else {
        line_step(facts_fold(ls.drop_last()), trimmed(ls.last()))
    }
}

/// The facts after all lines, a still unknown kind then guessed from the model name.
pub open spec fn facts_of(info: Seq<char>) -> FactsView {
    let f = facts_fold(lines_of(info));
    if f.drive_type == DriveType::Unknown && f.model.is_some() {
        let m = lower_of(f.model.unwrap());
        if occurs_in("ssd"@, m) || occurs_in("solid"@, m) {
            FactsView { drive_type: DriveType::Ssd, ..f }
        } else if occurs_in("hdd"@, m) || occurs_in("hard"@, m) {
            FactsView { drive_type: DriveType::Hdd, ..f }
        } else {
            f
        }
    } else {
        f
    }
}

#[verifier::rlimit(50)]
fn second_field_of(t: &str) -> (r: Option<String>)
    ensures
        r.is_some() == second_field(t@).is_some(),
        r.is_some() ==> r.unwrap()@ == second_field(t@).unwrap(),
{
    proof {
        reveal_strlit(":");
    }
    let n = t.unicode_len();
    match find(t, ":") {
        Some(i) => {
            proof {
                let k = choose|k: int| occurs_at(":"@, t@, k) && forall|j: int| 0 <= j < k ==> !occurs_at(":"@, t@, j);
                if k > i {
                    assert(!occurs_at(":"@, t@, i as int));
                }
            }
            let rest = t.substring_char(i + 1, n);
            let m = rest.unicode_len();
            match find(rest, ":") {
                Some(k) => {
                    proof {
                        let k2 = choose|k2: int| occurs_at(":"@, rest@, k2) && forall|j: int| 0 <= j < k2 ==> !occurs_at(":"@, rest@, j);
                        if k2 > k {
                            assert(!occurs_at(":"@, rest@, k as int));
                        }
                    }
                    Some(String::from_str(rest.substring_char(0, k)))
                },
                None => Some(String::from_str(rest)),
            }
        },
        None => None,
    }
}

fn step(f: &mut DiskFacts, line: &str)
    ensures
        final(f).view() == line_step(old(f).view(), trimmed(line@)),
{
    let t = trim(line);
    let t = t.as_str();
    if starts_with(t, "Removable Media:") {
        f.is_removable = contains(t, "Removable");
    } else if starts_with(t, "Protocol:") {
        if contains(t, "USB") || contains(t, "Thunderbolt") {
            f.is_external = true;
        }
    } else if starts_with(t, "Device Location:") {
        if contains(t, "External") {
            f.is_external = true;
        }
    } else if starts_with(t, "Solid State:") {
        if contains(t, "Yes") {
            f.drive_type = DriveType::Ssd;
        } else if contains(t, "No") {
            f.drive_type = DriveType::Hdd;
        }
    } else if starts_with(t, "Device / Media Name:") {
        f.model = match second_field_of(t) {
            Some(x) => Some(trim(x.as_str())),
            None => None,
        };
    } else if starts_with(t, "Media Type:") {
        let media = lowercase(t);
        let media = media.as_str();
        if contains(media, "ssd") || contains(media, "solid") {
            f.drive_type = DriveType::Ssd;
        } else if contains(media, "hdd") || contains(media, "rotational") {
            f.drive_type = DriveType::Hdd;
        }
    }
}

/// Reads the facts of a volume from the output of `diskutil info`.
pub fn parse_diskutil_info(info: &str) -> (r: DiskFacts)
    ensures
        r.view() == facts_of(info@),
{
    let ls = lines(info);
    let mut f = DiskFacts { is_external: false, is_removable: false, drive_type: DriveType::Unknown, model: None };
    let mut i: usize = 0;
    while i < ls.len()
        invariant
            i <= ls@.len(),
            texts(ls@) == lines_of(info@),
            f.view() == facts_fold(texts(ls@).subrange(0, i as int)),
        decreases ls@.len() - i,
    {
        proof {
            let s = texts(ls@).subrange(0, i + 1);
            assert(s.drop_last() =~= texts(ls@).subrange(0, i as int));
            assert(s.last() == ls@[i as int]@);
        }
        step(&mut f, ls[i].as_str());
        i += 1;
    }
    proof {
        assert(texts(ls@).subrange(0, ls@.len() as int) =~= texts(ls@));
    }
    if f.drive_type == DriveType::Unknown {
        let guess = match &f.model {
            Some(m) => {
                let ml = lowercase(m.as_str());
                let ml = ml.as_str();
                if contains(ml, "ssd") || contains(ml, "solid") {
                    DriveType::Ssd
                } else if contains(ml, "hdd") || contains(ml, "hard") {
                    DriveType::Hdd
                } else {
                    DriveType::Unknown
                }
            },
            None => DriveType::Unknown,
        };
        f.drive_type = guess;
    }
    f
}

/// Whether the first line of `mount` output that names `mount_point` shows a
/// network filesystem (smbfs, nfs, afpfs).
pub open spec fn network_in(ls: Seq<Seq<char>>, m: Seq<char>) -> bool
    decreases ls.len(),
{
    if ls.len() == 0 {
        false
    } else if occurs_in(m, ls[0]) {
        occurs_in("smbfs"@, ls[0]) || occurs_in("nfs"@, ls[0]) || occurs_in("afpfs"@, ls[0])
    } else {
        network_in(ls.subrange(1, ls.len() as int), m)
    }
}

pub fn is_network_mount(mount_output: &str, mount_point: &str) -> (r: bool)
    ensures
        r == network_in(lines_of(mount_output@), mount_point@),
{
    let ls = lines(mount_output);
    let ghost all = texts(ls@);
    proof {
        assert(all.subrange(0, all.len() as int) =~= all);
    }
    let mut i: usize = 0;
    while i < ls.len()
        invariant
            i <= ls@.len(),
            all == texts(ls@),
            all == lines_of(mount_output@),
            network_in(all, mount_point@) == network_in(all.subrange(i as int, all.len() as int), mount_point@),
        decreases ls@.len() - i,
    {
        let l = ls[i].as_str();
        proof {
            let s = all.subrange(i as int, all.len() as int);
            assert(s[0] == ls@[i as int]@);
            assert(s.subrange(1, s.len() as int) =~= all.subrange(i + 1, all.len() as int));
        }
        if contains(l, mount_point) {
            return contains(l, "smbfs") || contains(l, "nfs") || contains(l, "afpfs");
        }
        i += 1;
    }
    proof {
        assert(all.subrange(i as int, all.len() as int).len() == 0);
    }
    false
}

/// Makers recognised in drive descriptions: the text searched for, and the
/// name reported.
pub open spec fn maker_patterns() -> Seq<Seq<char>> {
    seq![
        "LaCie"@,
        "Seagate"@,
        "Western Digital"@,
        "WD"@,
        "Samsung"@,
        "SanDisk"@,
        "Toshiba"@,
        "Kingston"@,
        "Crucial"@,
        "G-Technology"@,
        "HGST"@,
        "Hitachi"@,
        "Maxtor"@,
        "PNY"@,
        "ADATA"@,
        "Transcend"@,
        "OWC"@,
    ]
}

pub open spec fn maker_names() -> Seq<Seq<char>> {
    seq![
        "LaCie"@,
        "Seagate"@,
        "WD"@,
        "WD"@,
        "Samsung"@,
        "SanDisk"@,
        "Toshiba"@,
        "Kingston"@,
        "Crucial"@,
        "G-Tech"@,
        "HGST"@,
        "Hitachi"@,
        "Maxtor"@,
        "PNY"@,
        "ADATA"@,
        "Transcend"@,
        "OWC"@,
    ]
}

fn maker_pattern(k: usize) -> (r: &'static str)
    requires
        k < 17,
    ensures
        r@ == maker_patterns()[k as int],
{
    if k == 0 {
        "LaCie"
    } else if k == 1 {
        "Seagate"
    } else if k == 2 {
        "Western Digital"
    } else if k == 3 {
        "WD"
    } else if k == 4 {
        "Samsung"
    } else if k == 5 {
        "SanDisk"
    } else if k == 6 {
        "Toshiba"
    } else if k == 7 {
        "Kingston"
    } else if k == 8 {
        "Crucial"
    } else if k == 9 {
        "G-Technology"
    } else if k == 10 {
        "HGST"
    } else if k == 11 {
        "Hitachi"
    } else if k == 12 {
        "Maxtor"
    } else if k == 13 {
        "PNY"
    } else if k == 14 {
        "ADATA"
    } else if k == 15 {
        "Transcend"
    } else {
        "OWC"
    }
}

fn maker_name(k: usize) -> (r: &'static str)
    requires
        k < 17,
    ensures
        r@ == maker_names()[k as int],
{
    if k == 0 {
        "LaCie"
    } else if k == 1 {
        "Seagate"
    } else if k == 2 {
        "WD"
    } else if k == 3 {
        "WD"
    } else if k == 4 {
        "Samsung"
    } else if k == 5 {
        "SanDisk"
    } else if k == 6 {
        "Toshiba"
    } else if k == 7 {
        "Kingston"
    } else if k == 8 {
        "Crucial"
    } else if k == 9 {
        "G-Tech"
    } else if k == 10 {
        "HGST"
    } else if k == 11 {
        "Hitachi"
    } else if k == 12 {
        "Maxtor"
    } else if k == 13 {
        "PNY"
    } else if k == 14 {
        "ADATA"
    } else if k == 15 {
        "Transcend"
    } else {
        "OWC"
    }
}

/// The first maker whose pattern occurs in `t`; with `fold`, pattern and text
/// are both compared in upper case.
pub open spec fn maker_at(t: Seq<char>, fold: bool, k: int) -> bool {
    if fold {
        occurs_in(upper_of(maker_patterns()[k]), t)
    } else {
        occurs_in(maker_patterns()[k], t)
    }
}

pub open spec fn first_maker(t: Seq<char>, fold: bool) -> Option<int> {
    if exists|k: int| 0 <= k < 17 && maker_at(t, fold, k) {
        Some(choose|k: int| 0 <= k < 17 && maker_at(t, fold, k) && forall|j: int| 0 <= j < k ==> !maker_at(t, fold, j))
    } else {
        None
    }
}

fn find_maker(t: &str, fold: bool) -> (r: Option<usize>)
    ensures
        r.is_some() == first_maker(t@, fold).is_some(),
        r.is_some() ==> r.unwrap() as int == first_maker(t@, fold).unwrap() && r.unwrap() < 17,
{
    let mut k: usize = 0;
    while k < 17
        invariant
            forall|j: int| 0 <= j < k ==> !#[trigger] maker_at(t@, fold, j),
        decreases 17 - k,
    {
        let p = maker_pattern(k);
        let hit = if fold {
            let up = uppercase(p);
            contains(t, up.as_str())
        } else {
            contains(t, p)
        };
        if hit {
            proof {
                assert(maker_at(t@, fold, k as int));
                let c = choose|c: int| 0 <= c < 17 && maker_at(t@, fold, c) && forall|j: int| 0 <= j < c ==> !maker_at(t@, fold, j);
                if c > k {
                    assert(!maker_at(t@, fold, k as int));
                }
            }
            return Some(k);
        }
        k += 1;
    }
    None
}

/// The maker named on the first line of `diskutil info` that names one,
/// lines and patterns compared in upper case.
pub open spec fn maker_in_lines(ls: Seq<Seq<char>>) -> Option<int>
    decreases ls.len(),
{
    if ls.len() == 0 {
        None
    } else {
        match first_maker(upper_of(ls[0]), true) {
            Some(k) => Some(k),
            None => maker_in_lines(ls.subrange(1, ls.len() as int)),
        }
    }
}

/// The maker of a drive according to `diskutil info`.
pub fn maker_in_diskutil(info: &str) -> (r: Option<&'static str>)
    ensures
        r.is_some() == maker_in_lines(lines_of(info@)).is_some(),
        r.is_some() ==> r.unwrap()@ == maker_names()[maker_in_lines(lines_of(info@)).unwrap()],
{
    let ls = lines(info);
    let ghost all = texts(ls@);
    proof {
        assert(all.subrange(0, all.len() as int) =~= all);
    }
    let mut i: usize = 0;
    while i < ls.len()
        invariant
            i <= ls@.len(),
            all == texts(ls@),
            all == lines_of(info@),
            maker_in_lines(all) == maker_in_lines(all.subrange(i as int, all.len() as int)),
        decreases ls@.len() - i,
    {
        proof {
            let s = all.subrange(i as int, all.len() as int);
            assert(s[0] == ls@[i as int]@);
            assert(s.subrange(1, s.len() as int) =~= all.subrange(i + 1, all.len() as int));
        }
        let up = uppercase(ls[i].as_str());
        match find_maker(up.as_str(), true) {
            Some(k) => {
                return Some(maker_name(k));
            },
            None => {},
        }
        i += 1;
    }
    proof {
        assert(all.subrange(i as int, all.len() as int).len() == 0);
    }
    None
}

/// The first maker (in pattern order) named anywhere in a `system_profiler` report.
pub fn maker_in_profile(report: &str) -> (r: Option<&'static str>)
    ensures
        r.is_some() == first_maker(report@, false).is_some(),
        r.is_some() ==> r.unwrap()@ == maker_names()[first_maker(report@, false).unwrap()],
{
    match find_maker(report, false) {
        Some(k) => Some(maker_name(k)),
        None => None,
    }
}

/// The kind of a drive and whether it is external: a network filesystem
/// under `/Volumes/` (as the `mount` listing shows it) is a network drive and
/// external; otherwise what `diskutil` said.
pub open spec fn drive_kind_spec(facts: FactsView, mount_point: Seq<char>, mount_output: Option<Seq<char>>) -> (DriveType, bool) {
    if is_prefix("/Volumes/"@, mount_point) && mount_output.is_some() && network_in(lines_of(mount_output.unwrap()), mount_point) {
        (DriveType::Network, true)
    } else {
        (facts.drive_type, facts.is_external)
    }
}

pub fn drive_kind(facts: &DiskFacts, mount_point: &str, mount_output: Option<&str>) -> (r: (DriveType, bool))
    ensures
        r == drive_kind_spec(facts.view(), mount_point@, match mount_output { Some(o) => Some(o@), None => None }),
{
    if starts_with(mount_point, "/Volumes/") {
        match mount_output {
            Some(o) => {
                if is_network_mount(o, mount_point) {
                    return (DriveType::Network, true);
                }
            },
            None => {},
        }
    }
    (facts.drive_type, facts.is_external)
}

/// What is known of the drive behind a volume.
pub struct VolumeInfo {
    pub name: String,
    pub mount_point: String,
    pub is_external: bool,
    pub is_removable: bool,
    pub drive_type: String,
    pub manufacturer: Option<String>,
    pub model: Option<String>,
    pub total_space: u64,
    pub available_space: u64,
}

} // verus!
