//! Cloud block volumes (BSU) as the library sees them, the requests it makes about
//! them, the device paths they are attached at, and the pace of cloud calls.
use vstd::prelude::*;
use crate::config::{disk_type_name, DiskType};
use crate::utils::{gib, owned};

verus! {

/// Key of the tag that ties a volume to its drive.
pub open spec fn tag_key() -> Seq<char> {
    "osc.bsud.drive-name"@
}

/// Largest IOPS figure asked for a volume.
pub const MAX_IOPS_PER_VOLUMES: u64 = 13000;

/// IOPS per GiB of an io1 volume when the configuration gives none.
pub const DEFAULT_IO1_IOPS_PER_GB: u64 = 100;

/// Seconds to leave between two cloud calls.
pub const API_LIMITER_S: i64 = 3;

/// Difference of clock readings (whole seconds) that guarantees the gap: a reading `t`
/// stands for a time in `[t, t + 1)`, so readings 4 apart are more than 3 s apart.
pub const API_LIMITER_READINGS_S: i64 = 4;

/// A link between a volume and a virtual machine, as the cloud reports it.
#[derive(Clone, Debug, PartialEq)]
pub struct LinkRecord {
    pub vm_id: Option<String>,
    pub state: Option<String>,
    pub device_name: Option<String>,
}

/// A tag of a volume.
#[derive(Clone, Debug, PartialEq)]
pub struct TagRecord {
    pub key: String,
    pub value: String,
}

/// A volume as the cloud reports it.
#[derive(Clone, Debug, PartialEq)]
pub struct VolumeRecord {
    pub volume_id: Option<String>,
    pub size: Option<i32>,
    pub state: Option<String>,
    pub linked_volumes: Option<Vec<LinkRecord>>,
    pub tags: Option<Vec<TagRecord>>,
}

/// A volume of a drive.
#[derive(Clone, Debug, PartialEq)]
pub struct Bsu {
    /// The machine the volume is attached (or being attached) to.
    pub vm_id: Option<String>,
    pub drive_name: String,
    pub id: String,
    pub size_bytes: u64,
    pub size_gib: u64,
    /// Where the cloud says the volume shows up on its machine.
    pub device_path: Option<String>,
}

pub struct BsuView {
    pub vm_id: Option<Seq<char>>,
    pub drive_name: Seq<char>,
    pub id: Seq<char>,
    pub size_bytes: u64,
    pub size_gib: u64,
    pub device_path: Option<Seq<char>>,
}

pub open spec fn opt_view(o: Option<String>) -> Option<Seq<char>> {
    match o {
        Some(s) => Some(s@),
        None => None,
    }
}

impl View for Bsu {
    type V = BsuView;

    open spec fn view(&self) -> BsuView {
        BsuView {
            vm_id: opt_view(self.vm_id),
            drive_name: self.drive_name@,
            id: self.id@,
            size_bytes: self.size_bytes,
            size_gib: self.size_gib,
            device_path: opt_view(self.device_path),
        }
    }
}

pub open spec fn views(bs: Seq<Bsu>) -> Seq<BsuView> {
    bs.map_values(|b: Bsu| b@)
}

/// Why a cloud volume could not be read as a volume of a drive.
#[derive(Clone, Copy, Debug, PartialEq, Eq, Structural)]
pub enum BsuError {
    NoId,
    NoSize,
    NoDriveName,
}

/// A copy of an optional string.
pub fn copy_opt(o: &Option<String>) -> (r: Option<String>)
    ensures
        opt_view(r) == opt_view(*o),
{
    match o {
        Some(s) => Some(s.clone()),
        None => None,
    }
}

/// Whether `a` and `b` hold the same characters.
pub fn str_eq(a: &str, b: &str) -> (r: bool)
    ensures
        r == (a@ == b@),
{
    let n = a.unicode_len();
    if n != b.unicode_len() {
        return false;
    }
    let mut i: usize = 0;
    while i < n
        invariant
            i <= n,
            n == a@.len(),
            n == b@.len(),
            forall|j: int| 0 <= j < i ==> a@[j] == b@[j],
        decreases n - i,
    {
        if a.get_char(i) != b.get_char(i) {
            return false;
        }
        i = i + 1;
    }
    assert(a@ =~= b@);
    true
}

/// The machine a volume is attached to: the first link that gives both a state and a
/// machine decides, and only a link that is attaching or attached counts.
pub open spec fn linked_vm(links: Seq<LinkRecord>) -> Option<Seq<char>>
    decreases links.len(),
{
    if links.len() == 0 {
        None
    } else {
        let l = links[0];
        if l.state is Some && l.vm_id is Some {
            let st = l.state.unwrap()@;
            if st == "attaching"@ || st == "attached"@ {
                Some(l.vm_id.unwrap()@)
            } else {
                None
            }
        } else {
            linked_vm(links.drop_first())
        }
    }
}

/// The drive named by the first drive tag among `tags`.
pub open spec fn tagged_drive(tags: Seq<TagRecord>) -> Option<Seq<char>>
    decreases tags.len(),
{
    if tags.len() == 0 {
        None
    } else if tags[0].key@ == tag_key() {
        Some(tags[0].value@)
    } else {
        tagged_drive(tags.drop_first())
    }
}

pub open spec fn links_of(v: VolumeRecord) -> Seq<LinkRecord> {
    match v.linked_volumes {
        Some(l) => l@,
        None => Seq::empty(),
    }
}

pub open spec fn tags_of(v: VolumeRecord) -> Seq<TagRecord> {
    match v.tags {
        Some(t) => t@,
        None => Seq::empty(),
    }
}

/// The device path that the first link of a volume gives.
pub open spec fn first_device(v: VolumeRecord) -> Option<Seq<char>> {
    if links_of(v).len() > 0 {
        opt_view(links_of(v)[0].device_name)
    } else {
        None
    }
}

/// A cloud volume read as a volume of a drive.
pub open spec fn bsu_of(v: VolumeRecord) -> Result<BsuView, BsuError> {
    if v.volume_id is None {
        Err(BsuError::NoId)
    } else if v.size is None || v.size.unwrap() < 0 {
        Err(BsuError::NoSize)
    } else if tagged_drive(tags_of(v)) is None {
        Err(BsuError::NoDriveName)
    } else {
        Ok(BsuView {
            vm_id: linked_vm(links_of(v)),
            drive_name: tagged_drive(tags_of(v)).unwrap(),
            id: v.volume_id.unwrap()@,
            size_bytes: (v.size.unwrap() * gib()) as u64,
            size_gib: v.size.unwrap() as u64,
            device_path: first_device(v),
        })
    }
}

/// The cloud lists a volume in one of these states only while it can be used.
pub open spec fn usable_state(state: Option<String>) -> bool {
    match state {
        Some(s) => s@ == "creating"@ || s@ == "available"@ || s@ == "in-use"@,
        None => false,
    }
}

/// The usable volumes of a listing, read as volumes of a drive, in order; the first
/// one that cannot be read decides the error.
pub open spec fn bsus_of(vs: Seq<VolumeRecord>) -> Result<Seq<BsuView>, BsuError>
    decreases vs.len(),
{
    if vs.len() == 0 {
        Ok(Seq::empty())
    } else {
        match bsus_of(vs.drop_last()) {
            Err(e) => Err(e),
            Ok(s) => if usable_state(vs.last().state) {
                match bsu_of(vs.last()) {
                    Ok(b) => Ok(s.push(b)),
                    Err(e) => Err(e),
                }
            } else {
                Ok(s)
            },
        }
    }
}

/// The elements of `bs` that `p` keeps, in order.
pub open spec fn select(bs: Seq<BsuView>, p: spec_fn(BsuView) -> bool) -> Seq<BsuView>
    decreases bs.len(),
{
    if bs.len() == 0 {
        Seq::empty()
    } else if p(bs.last()) {
        select(bs.drop_last(), p).push(bs.last())
    } else {
        select(bs.drop_last(), p)
    }
}

/// The volume is attached to the machine `vm`.
pub open spec fn is_attached_to(b: BsuView, vm: Seq<char>) -> bool {
    b.vm_id == Some(vm)
}

/// Whether every state given is `desired` (volumes that report no state do not count).
pub open spec fn all_in_state(states: Seq<Option<String>>, desired: Seq<char>) -> bool {
    forall|i: int| 0 <= i < states.len() && (#[trigger] states[i]) is Some ==> states[i].unwrap()@ == desired
}

/// What a volume creation asks of the cloud.
#[derive(Clone, Debug, PartialEq)]
pub struct VolumeRequest {
    pub drive_name: String,
    pub volume_type: String,
    pub size_gib: u64,
    pub iops: Option<u64>,
}

pub struct VolumeRequestView {
    pub drive_name: Seq<char>,
    pub volume_type: Seq<char>,
    pub size_gib: u64,
    pub iops: Option<u64>,
}

impl View for VolumeRequest {
    type V = VolumeRequestView;

    open spec fn view(&self) -> VolumeRequestView {
        VolumeRequestView {
            drive_name: self.drive_name@,
            volume_type: self.volume_type@,
            size_gib: self.size_gib,
            iops: self.iops,
        }
    }
}

/// The IOPS to ask for a volume: for io1, the larger of `size_gib` times the IOPS per
/// GiB (100 when not configured) and 13000, held at `u64::MAX`; none for other types.
pub open spec fn iops_of(disk_type: DiskType, iops_per_gib: Option<u64>, size_gib: u64) -> Option<u64> {
    match disk_type {
        DiskType::Io1 => {
            let per_gib: int = match iops_per_gib {
                Some(n) => n as int,
                None => 100,
            };
            let wanted = size_gib * per_gib;
            let capped = if wanted > u64::MAX { u64::MAX as int } else { wanted };
            Some((if capped > 13000 { capped } else { 13000 }) as u64)
        },
        _ => None,
    }
}

/// The request that creates a volume of `size_gib` GiB for `drive_name`.
pub open spec fn request_of(
    drive_name: Seq<char>,
    disk_type: DiskType,
    iops_per_gib: Option<u64>,
    size_gib: u64,
) -> VolumeRequestView {
    VolumeRequestView {
        drive_name,
        volume_type: disk_type_name(disk_type),
        size_gib,
        iops: iops_of(disk_type, iops_per_gib, size_gib),
    }
}

/// Letters `a` to `z`.
pub open spec fn letter(k: int) -> char {
    "abcdefghijklmnopqrstuvwxyz"@[k]
}

/// Number of device paths that volumes may be attached at.
pub const NB_DEVICE_CANDIDATES: usize = 675;

/// The `i`-th device path to try: `/dev/xvdb` to `/dev/xvdz`, then `/dev/xvdba` to `/dev/xvdzz`.
pub open spec fn device_candidate(i: int) -> Seq<char> {
    if i < 25 {
        "/dev/xvd"@.push(letter(i + 1))
    } else {
        "/dev/xvd"@.push(letter((i - 25) / 26 + 1)).push(letter((i - 25) % 26))
    }
}

/// Paces cloud calls: remembers the clock reading (whole seconds) of the last one.
#[derive(Clone, Debug, PartialEq)]
pub struct ApiLimiter {
    pub last_call_s: i64,
}

/// Seconds a call whose clock reading is `now` must wait after a call read at `last`, so
/// that the readings differ by at least 4 (held at `u64::MAX`).
pub open spec fn limiter_wait(last: int, now: int) -> int {
    let left = 4 - (now - last);
    if left > u64::MAX { u64::MAX as int } else if left > 0 { left } else { 0 }
}

impl Bsu {
    /// A copy of this volume.
    pub fn copy(&self) -> (r: Bsu)
        ensures
            r@ == self@,
    {
        Bsu {
            vm_id: copy_opt(&self.vm_id),
            drive_name: self.drive_name.clone(),
            id: self.id.clone(),
            size_bytes: self.size_bytes,
            size_gib: self.size_gib,
            device_path: copy_opt(&self.device_path),
        }
    }

    fn get_drive_linked_vm_id(volume: &VolumeRecord) -> (r: Option<String>)
        ensures
            opt_view(r) == linked_vm(links_of(*volume)),
    {
        let Some(links) = &volume.linked_volumes else {
            return None;
        };
        let mut i: usize = 0;
        assert(links@.subrange(0, links@.len() as int) =~= links@);
        while i < links.len()
            invariant
                i <= links@.len(),
                links_of(*volume) == links@,
                linked_vm(links@) == linked_vm(links@.subrange(i as int, links@.len() as int)),
            decreases links@.len() - i,
        {
            let rest = Ghost(links@.subrange(i as int, links@.len() as int));
            assert(rest@[0] == links@[i as int]);
            let l = &links[i];
            if let (Some(state), Some(vm_id)) = (&l.state, &l.vm_id) {
                if str_eq(state.as_str(), "attaching") || str_eq(state.as_str(), "attached") {
                    return Some(vm_id.clone());
                }
                return None;
            }
            assert(rest@.drop_first() =~= links@.subrange(i + 1, links@.len() as int));
            i = i + 1;
        }
        None
    }

    fn get_drive_name(volume: &VolumeRecord) -> (r: Option<String>)
        ensures
            opt_view(r) == tagged_drive(tags_of(*volume)),
    {
        let Some(tags) = &volume.tags else {
            return None;
        };
        let mut i: usize = 0;
        assert(tags@.subrange(0, tags@.len() as int) =~= tags@);
        while i < tags.len()
            invariant
                i <= tags@.len(),
                tags_of(*volume) == tags@,
                tagged_drive(tags@) == tagged_drive(tags@.subrange(i as int, tags@.len() as int)),
            decreases tags@.len() - i,
        {
            let rest = Ghost(tags@.subrange(i as int, tags@.len() as int));
            assert(rest@[0] == tags@[i as int]);
            if str_eq(tags[i].key.as_str(), "osc.bsud.drive-name") {
                return Some(tags[i].value.clone());
            }
            assert(rest@.drop_first() =~= tags@.subrange(i + 1, tags@.len() as int));
            i = i + 1;
        }
        None
    }

    fn get_drive_device_path(volume: &VolumeRecord) -> (r: Option<String>)
        ensures
            opt_view(r) == first_device(*volume),
    {
        match &volume.linked_volumes {
            Some(links) => if links.len() > 0 {
                copy_opt(&links[0].device_name)
            } else {
                None
            },
            None => None,
        }
    }

    /// Reads a cloud volume as a volume of a drive.
    pub fn new(volume: &VolumeRecord) -> (r: Result<Bsu, BsuError>)
        ensures
            match r {
                Ok(b) => bsu_of(*volume) == Ok::<BsuView, BsuError>(b@),
                Err(e) => bsu_of(*volume) == Err::<BsuView, BsuError>(e),
            },
    {
        let Some(bsu_id) = &volume.volume_id else {
            return Err(BsuError::NoId);
        };
        let Some(bsu_size_gib) = volume.size else {
            return Err(BsuError::NoSize);
        };
        if bsu_size_gib < 0 {
            return Err(BsuError::NoSize);
        }
        let vm_id = Bsu::get_drive_linked_vm_id(volume);
        let Some(drive_name) = Bsu::get_drive_name(volume) else {
            return Err(BsuError::NoDriveName);
        };
        let device_path = Bsu::get_drive_device_path(volume);
        let size_gib = bsu_size_gib as u64;
        assert(size_gib * gib() <= u64::MAX) by (nonlinear_arith)
            requires
                size_gib <= 2147483647,
                gib() == 1073741824,
        ;
        let b = Bsu {
            vm_id,
            drive_name,
            id: bsu_id.clone(),
            size_bytes: crate::utils::gib_to_bytes(size_gib),
            size_gib,
            device_path,
        };
        assert(b@ == bsu_of(*volume).unwrap());
        Ok(b)
    }

    /// The usable volumes of a cloud listing, read as volumes of a drive.
    pub fn from_volumes(volumes: &Vec<VolumeRecord>) -> (r: Result<Vec<Bsu>, BsuError>)
        ensures
            match r {
                Ok(bs) => bsus_of(volumes@) == Ok::<Seq<BsuView>, BsuError>(views(bs@)),
                Err(e) => bsus_of(volumes@) == Err::<Seq<BsuView>, BsuError>(e),
            },
    {
        let mut out: Vec<Bsu> = Vec::new();
        let mut i: usize = 0;
        assert(volumes@.subrange(0, 0) =~= Seq::<VolumeRecord>::empty());
        assert(views(out@) =~= Seq::<BsuView>::empty());
        while i < volumes.len()
            invariant
                i <= volumes@.len(),
                bsus_of(volumes@.subrange(0, i as int)) == Ok::<Seq<BsuView>, BsuError>(views(out@)),
            decreases volumes@.len() - i,
        {
            let ghost pre = volumes@.subrange(0, i as int);
            let ghost cur = volumes@.subrange(0, i + 1);
            assert(cur.drop_last() =~= pre);
            assert(cur.last() == volumes@[i as int]);
            let v = &volumes[i];
            let usable = match &v.state {
                Some(s) => str_eq(s.as_str(), "creating") || str_eq(s.as_str(), "available") || str_eq(s.as_str(), "in-use"),
                None => false,
            };
            assert(usable == usable_state(v.state));
            let ghost before = views(out@);
            if usable {
                match Bsu::new(v) {
                    Ok(b) => {
                        let ghost bv = b@;
                        out.push(b);
                        assert(views(out@) =~= before.push(bv));
                        assert(bsus_of(cur) == Ok::<Seq<BsuView>, BsuError>(before.push(bv)));
                    },
                    Err(e) => {
                        proof {
                            lemma_bsus_of_error_stays(volumes@, i as int + 1, e);
                        }
                        return Err(e);
                    },
                }
            } else {
                assert(bsus_of(cur) == Ok::<Seq<BsuView>, BsuError>(before));
            }
            i = i + 1;
        }
        assert(volumes@.subrange(0, volumes@.len() as int) =~= volumes@);
        Ok(out)
    }

    /// The volumes of `bsus` that are not attached to the machine `vm_id` (attached to no
    /// machine, or to another one).
    pub fn not_attached_to(vm_id: &String, bsus: &Vec<Bsu>) -> (r: Vec<Bsu>)
        ensures
            views(r@) == select(views(bsus@), |b: BsuView| !is_attached_to(b, vm_id@)),
    {
        let mut out: Vec<Bsu> = Vec::new();
        let mut i: usize = 0;
        while i < bsus.len()
            invariant
                i <= bsus@.len(),
                views(out@) == select(views(bsus@.subrange(0, i as int)), |b: BsuView| !is_attached_to(b, vm_id@)),
            decreases bsus@.len() - i,
        {
            let ghost cur = views(bsus@.subrange(0, i + 1));
            assert(cur.drop_last() =~= views(bsus@.subrange(0, i as int)));
            assert(cur.last() == bsus@[i as int]@);
            let here = match &bsus[i].vm_id {
                Some(v) => *v == *vm_id,
                None => false,
            };
            if !here {
                out.push(bsus[i].copy());
                assert(views(out@) =~= views(out@.drop_last()).push(bsus@[i as int]@));
            }
            i = i + 1;
        }
        assert(bsus@.subrange(0, bsus@.len() as int) =~= bsus@);
        out
    }

    /// The volumes of `bsus` that are attached to the machine `vm_id`.
    pub fn attached_to(vm_id: &String, bsus: &Vec<Bsu>) -> (r: Vec<Bsu>)
        ensures
            views(r@) == select(views(bsus@), |b: BsuView| is_attached_to(b, vm_id@)),
    {
        let mut out: Vec<Bsu> = Vec::new();
        let mut i: usize = 0;
        while i < bsus.len()
            invariant
                i <= bsus@.len(),
                views(out@) == select(views(bsus@.subrange(0, i as int)), |b: BsuView| is_attached_to(b, vm_id@)),
            decreases bsus@.len() - i,
        {
            let ghost cur = views(bsus@.subrange(0, i + 1));
            assert(cur.drop_last() =~= views(bsus@.subrange(0, i as int)));
            assert(cur.last() == bsus@[i as int]@);
            let here = match &bsus[i].vm_id {
                Some(v) => *v == *vm_id,
                None => false,
            };
            if here {
                out.push(bsus[i].copy());
                assert(views(out@) =~= views(out@.drop_last()).push(bsus@[i as int]@));
            }
            i = i + 1;
        }
        assert(bsus@.subrange(0, bsus@.len() as int) =~= bsus@);
        out
    }

    /// Whether every volume that reports a state is in the state `desired`.
    pub fn all_in_state(states: &Vec<Option<String>>, desired: &str) -> (r: bool)
        ensures
            r == all_in_state(states@, desired@),
    {
        let mut i: usize = 0;
        while i < states.len()
            invariant
                i <= states@.len(),
                forall|j: int| 0 <= j < i && (#[trigger] states@[j]) is Some ==> states@[j].unwrap()@ == desired@,
            decreases states@.len() - i,
        {
            if let Some(s) = &states[i] {
                if !str_eq(s.as_str(), desired) {
                    return false;
                }
            }
            i = i + 1;
        }
        true
    }

    /// The listing filter that selects the volumes of `drive_name`: `osc.bsud.drive-name=<name>`.
    pub fn tag_filter(drive_name: &String) -> (r: String)
        ensures
            r@ == tag_key() + "="@ + drive_name@,
    {
        let mut r = owned("osc.bsud.drive-name=");
        r.append(drive_name.as_str());
        proof {
            reveal_strlit("osc.bsud.drive-name=");
            reveal_strlit("osc.bsud.drive-name");
            reveal_strlit("=");
        }
        assert(r@ =~= tag_key() + "="@ + drive_name@);
        r
    }

    /// The key of the tag that ties a volume to its drive.
    pub fn tag_key() -> (r: String)
        ensures
            r@ == tag_key(),
    {
        owned("osc.bsud.drive-name")
    }

    /// The request that creates a volume of `disk_size_gib` GiB for `drive_name`.
    pub fn create_gib(
        drive_name: &String,
        disk_type: DiskType,
        disk_iops_per_gib: Option<u64>,
        disk_size_gib: u64,
    ) -> (r: VolumeRequest)
        ensures
            r@ == request_of(drive_name@, disk_type, disk_iops_per_gib, disk_size_gib),
    {
        let iops = match disk_type {
            DiskType::Io1 => {
                let per_gib = match disk_iops_per_gib {
                    Some(n) => n,
                    None => DEFAULT_IO1_IOPS_PER_GB,
                };
                let wanted = disk_size_gib.checked_mul(per_gib);
                let capped = match wanted {
                    Some(w) => w,
                    None => u64::MAX,
                };
                Some(if capped > MAX_IOPS_PER_VOLUMES { capped } else { MAX_IOPS_PER_VOLUMES })
            },
            _ => None,
        };
        VolumeRequest {
            drive_name: drive_name.clone(),
            volume_type: disk_type.to_string(),
            size_gib: disk_size_gib,
            iops,
        }
    }

    /// The `i`-th device path to try when attaching a volume.
    pub fn device_candidate(i: usize) -> (r: String)
        requires
            i < NB_DEVICE_CANDIDATES,
        ensures
            r@ == device_candidate(i as int),
    {
        let letters = "abcdefghijklmnopqrstuvwxyz";
        proof {
            reveal_strlit("abcdefghijklmnopqrstuvwxyz");
            reveal_strlit("/dev/xvd");
        }
        let mut r = owned("/dev/xvd");
        if i < 25 {
            r.append(letters.substring_char(i + 1, i + 2));
        } else {
            let a = (i - 25) / 26 + 1;
            let b = (i - 25) % 26;
            r.append(letters.substring_char(a, a + 1));
            r.append(letters.substring_char(b, b + 1));
        }
        assert(r@ =~= device_candidate(i as int));
        r
    }

    /// The first candidate device path that is not present, given for each candidate
    /// (in order) whether it is present; none when all are.
    pub fn find_next_available_device(present: &Vec<bool>) -> (r: Option<String>)
        requires
            present@.len() == NB_DEVICE_CANDIDATES,
        ensures
            match r {
                Some(p) => exists|i: int|
                    0 <= i < present@.len() && !present@[i] && p@ == device_candidate(i)
                        && forall|j: int| 0 <= j < i ==> present@[j],
                None => forall|j: int| 0 <= j < present@.len() ==> present@[j],
            },
    {
        let mut i: usize = 0;
        while i < present.len()
            invariant
                i <= present@.len(),
                present@.len() == NB_DEVICE_CANDIDATES,
                forall|j: int| 0 <= j < i ==> present@[j],
            decreases present@.len() - i,
        {
            if !present[i] {
                return Some(Bsu::device_candidate(i));
            }
            i = i + 1;
        }
        None
    }
}

proof fn lemma_bsus_of_error_stays(vs: Seq<VolumeRecord>, k: int, e: BsuError)
    requires
        0 <= k <= vs.len(),
        bsus_of(vs.subrange(0, k)) == Err::<Seq<BsuView>, BsuError>(e),
    ensures
        bsus_of(vs) == Err::<Seq<BsuView>, BsuError>(e),
    decreases vs.len() - k,
{
    if k == vs.len() {
        assert(vs.subrange(0, k) =~= vs);
    } else {
        let next = vs.subrange(0, k + 1);
        assert(next.drop_last() =~= vs.subrange(0, k));
        lemma_bsus_of_error_stays(vs, k + 1, e);
    }
}

impl ApiLimiter {
    /// A limiter that lets the first call through at once.
    pub fn new(now_s: i64) -> (r: ApiLimiter)
        ensures
            r.last_call_s as int == if now_s >= i64::MIN + 4 { now_s - 4 } else { i64::MIN as int },
    {
        ApiLimiter { last_call_s: if now_s >= i64::MIN + 4 { now_s - API_LIMITER_READINGS_S } else { i64::MIN } }
    }

    /// Seconds to sleep before a call wanted at the clock reading `now_s`.
    pub fn wait_secs(&self, now_s: i64) -> (r: u64)
        ensures
            r as int == limiter_wait(self.last_call_s as int, now_s as int),
    {
        let waited: i128 = now_s as i128 - self.last_call_s as i128;
        let left: i128 = API_LIMITER_READINGS_S as i128 - waited;
        if left > u64::MAX as i128 {
            u64::MAX
        } else if left > 0 {
            left as u64
        } else {
            0
        }
    }

    /// Records a call made at the clock reading `now_s`.
    pub fn record(&mut self, now_s: i64)
        ensures
            final(self).last_call_s == now_s,
    {
        self.last_call_s = now_s;
    }
}


impl ApiLimiter {
    /// Seconds to sleep before a call wanted now; also gives the clock reading.
    pub fn wait_now(&self) -> (r: (u64, i64))
        ensures
            r.0 as int == limiter_wait(self.last_call_s as int, r.1 as int),
    {
        let now = crate::utils::now_seconds();
        (self.wait_secs(now), now)
    }

    /// Records a call made now; gives the clock reading.
    pub fn record_now(&mut self) -> (t: i64)
        ensures
            final(self).last_call_s == t,
    {
        let now = crate::utils::now_seconds();
        self.record(now);
        now
    }
}

} // verus!
