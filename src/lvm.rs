//! The LVM layer: what the full report says, and the commands that change it.
use vstd::prelude::*;
use crate::utils::{command_of, decimal, decimal_string, owned, CommandLine};

verus! {

/// The whole output of `lvm fullreport --reportformat json`.
#[derive(Clone, Debug, Default, PartialEq)]
pub struct JsonDesc {
    pub report: Vec<Lvm>,
}

/// One entry of the full report: a volume group (or none, for the physical volumes
/// that belong to no group) with its physical volumes, logical volumes and segments.
#[derive(Clone, Debug, Default, PartialEq)]
pub struct Lvm {
    pub vg: Vec<Vg>,
    pub pv: Vec<Pv>,
    pub lv: Vec<Lv>,
    pub pvseg: Vec<Pvseg>,
    pub seg: Vec<Seg>,
}

/// A volume group, as the report gives it (sizes carry a unit suffix).
#[derive(Clone, Debug, Default, PartialEq)]
pub struct Vg {
    pub vg_fmt: String,
    pub vg_uuid: String,
    pub vg_name: String,
    pub vg_attr: String,
    pub vg_permissions: String,
    pub vg_extendable: String,
    pub vg_exported: String,
    pub vg_autoactivation: String,
    pub vg_partial: String,
    pub vg_allocation_policy: String,
    pub vg_clustered: String,
    pub vg_shared: String,
    pub vg_size: String,
    pub vg_free: String,
    pub vg_sysid: String,
    pub vg_systemid: String,
    pub vg_lock_type: String,
    pub vg_lock_args: String,
    pub vg_extent_size: String,
    pub vg_extent_count: String,
    pub vg_free_count: String,
    pub max_lv: String,
    pub max_pv: String,
    pub pv_count: String,
    pub vg_missing_pv_count: String,
    pub lv_count: String,
    pub snap_count: String,
    pub vg_seqno: String,
    pub vg_tags: String,
    pub vg_profile: String,
    pub vg_mda_count: String,
    pub vg_mda_used_count: String,
    pub vg_mda_free: String,
    pub vg_mda_size: String,
    pub vg_mda_copies: String,
}

/// A physical volume, as the report gives it.
#[derive(Clone, Debug, Default, PartialEq)]
pub struct Pv {
    pub pv_fmt: String,
    pub pv_uuid: String,
    pub dev_size: String,
    pub pv_name: String,
    pub pv_major: String,
    pub pv_minor: String,
    pub pv_mda_free: String,
    pub pv_mda_size: String,
    pub pv_ext_vsn: String,
    pub pe_start: String,
    pub pv_size: String,
    pub pv_free: String,
    pub pv_used: String,
    pub pv_attr: String,
    pub pv_allocatable: String,
    pub pv_exported: String,
    pub pv_missing: String,
    pub pv_pe_count: String,
    pub pv_pe_alloc_count: String,
    pub pv_tags: String,
    pub pv_mda_count: String,
    pub pv_mda_used_count: String,
    pub pv_ba_start: String,
    pub pv_ba_size: String,
    pub pv_in_use: String,
    pub pv_duplicate: String,
    pub pv_device_id: String,
    pub pv_device_id_type: String,
}

/// A logical volume, as the report gives it (sizes carry a unit suffix).
#[derive(Clone, Debug, Default, PartialEq)]
pub struct Lv {
    pub lv_uuid: String,
    pub lv_name: String,
    pub lv_full_name: String,
    pub lv_path: String,
    pub lv_dm_path: String,
    pub lv_parent: String,
    pub lv_layout: String,
    pub lv_role: String,
    pub lv_initial_image_sync: String,
    pub lv_image_synced: String,
    pub lv_merging: String,
    pub lv_converting: String,
    pub lv_allocation_policy: String,
    pub lv_allocation_locked: String,
    pub lv_fixed_minor: String,
    pub lv_skip_activation: String,
    pub lv_autoactivation: String,
    pub lv_when_full: String,
    pub lv_active: String,
    pub lv_active_locally: String,
    pub lv_active_remotely: String,
    pub lv_active_exclusively: String,
    pub lv_major: String,
    pub lv_minor: String,
    pub lv_read_ahead: String,
    pub lv_size: String,
    pub lv_metadata_size: String,
    pub seg_count: String,
    pub origin: String,
    pub origin_uuid: String,
    pub origin_size: String,
    pub lv_ancestors: String,
    pub lv_full_ancestors: String,
    pub lv_descendants: String,
    pub lv_full_descendants: String,
    pub raid_mismatch_count: String,
    pub raid_sync_action: String,
    pub raid_write_behind: String,
    pub raid_min_recovery_rate: String,
    pub raid_max_recovery_rate: String,
    pub raidintegritymode: String,
    pub raidintegrityblocksize: String,
    pub integritymismatches: String,
    pub move_pv: String,
    pub move_pv_uuid: String,
    pub convert_lv: String,
    pub convert_lv_uuid: String,
    pub mirror_log: String,
    pub mirror_log_uuid: String,
    pub data_lv: String,
    pub data_lv_uuid: String,
    pub metadata_lv: String,
    pub metadata_lv_uuid: String,
    pub pool_lv: String,
    pub pool_lv_uuid: String,
    pub lv_tags: String,
    pub lv_profile: String,
    pub lv_lockargs: String,
    pub lv_time: String,
    pub lv_time_removed: String,
    pub lv_host: String,
    pub lv_modules: String,
    pub lv_historical: String,
    pub writecache_block_size: String,
    pub lv_kernel_major: String,
    pub lv_kernel_minor: String,
    pub lv_kernel_read_ahead: String,
    pub lv_permissions: String,
    pub lv_suspended: String,
    pub lv_live_table: String,
    pub lv_inactive_table: String,
    pub lv_device_open: String,
    pub data_percent: String,
    pub snap_percent: String,
    pub metadata_percent: String,
    pub copy_percent: String,
    pub sync_percent: String,
    pub cache_total_blocks: String,
    pub cache_used_blocks: String,
    pub cache_dirty_blocks: String,
    pub cache_read_hits: String,
    pub cache_read_misses: String,
    pub cache_write_hits: String,
    pub cache_write_misses: String,
    pub kernel_cache_settings: String,
    pub kernel_cache_policy: String,
    pub kernel_metadata_format: String,
    pub lv_health_status: String,
    pub kernel_discards: String,
    pub lv_check_needed: String,
    pub lv_merge_failed: String,
    pub lv_snapshot_invalid: String,
    pub vdo_operating_mode: String,
    pub vdo_compression_state: String,
    pub vdo_index_state: String,
    pub vdo_used_size: String,
    pub vdo_saving_percent: String,
    pub writecache_total_blocks: String,
    pub writecache_free_blocks: String,
    pub writecache_writeback_blocks: String,
    pub writecache_error: String,
    pub lv_attr: String,
}

/// A physical volume segment, as the report gives it.
#[derive(Clone, Debug, Default, PartialEq)]
pub struct Pvseg {
    pub pvseg_start: String,
    pub pvseg_size: String,
    pub pv_uuid: String,
    pub lv_uuid: String,
}

/// A logical volume segment, as the report gives it.
#[derive(Clone, Debug, Default, PartialEq)]
pub struct Seg {
    pub segtype: String,
    pub stripes: String,
    pub data_stripes: String,
    pub reshape_len: String,
    pub reshape_len_le: String,
    pub data_copies: String,
    pub data_offset: String,
    pub new_data_offset: String,
    pub parity_chunks: String,
    pub stripe_size: String,
    pub region_size: String,
    pub chunk_size: String,
    pub thin_count: String,
    pub discards: String,
    pub cache_metadata_format: String,
    pub cache_mode: String,
    pub zero: String,
    pub transaction_id: String,
    pub thin_id: String,
    pub seg_start: String,
    pub seg_start_pe: String,
    pub seg_size: String,
    pub seg_size_pe: String,
    pub seg_tags: String,
    pub seg_pe_ranges: String,
    pub seg_le_ranges: String,
    pub seg_metadata_le_ranges: String,
    pub devices: String,
    pub metadata_devices: String,
    pub seg_monitor: String,
    pub cache_policy: String,
    pub cache_settings: String,
    pub vdo_compression: String,
    pub vdo_deduplication: String,
    pub vdo_use_metadata_hints: String,
    pub vdo_minimum_io_size: String,
    pub vdo_block_map_cache_size: String,
    pub vdo_block_map_era_length: String,
    pub vdo_use_sparse_index: String,
    pub vdo_index_memory_size: String,
    pub vdo_slab_size: String,
    pub vdo_ack_threads: String,
    pub vdo_bio_threads: String,
    pub vdo_bio_rotation: String,
    pub vdo_cpu_threads: String,
    pub vdo_hash_zone_threads: String,
    pub vdo_logical_threads: String,
    pub vdo_physical_threads: String,
    pub vdo_max_discard: String,
    pub vdo_write_policy: String,
    pub vdo_header_size: String,
    pub lv_uuid: String,
}

/// Why a size could not be read from the report.
#[derive(Clone, Copy, Debug, PartialEq, Eq, Structural)]
pub enum LvmError {
    /// No report entry holds the volume group.
    NoReport,
    /// The report entry holds no volume group.
    NoVg,
    /// The report entry holds no logical volume.
    NoLv,
    /// The size is not a byte count followed by its unit letter.
    BadSize,
}

impl Lvm {
    /// Names of the physical volumes of this entry, in report order.
    pub fn devices(&self) -> (r: Vec<String>)
        ensures
            r@.len() == self.pv@.len(),
            forall|i: int| 0 <= i < r@.len() ==> #[trigger] r@[i]@ == self.pv@[i].pv_name@,
    {
        let mut all_devices: Vec<String> = Vec::new();
        let mut i: usize = 0;
        while i < self.pv.len()
            invariant
                i <= self.pv@.len(),
                all_devices@.len() == i,
                forall|j: int| 0 <= j < i ==> #[trigger] all_devices@[j]@ == self.pv@[j].pv_name@,
            decreases self.pv@.len() - i,
        {
            all_devices.push(self.pv[i].pv_name.clone());
            i = i + 1;
        }
        all_devices
    }
}

/// `s` with every `-` written twice, as device-mapper names are.
pub open spec fn dashes_doubled(s: Seq<char>) -> Seq<char>
    decreases s.len(),
{
    if s.len() == 0 {
        Seq::empty()
    } else {
        dashes_doubled(s.drop_last()) + if s.last() == '-' {
            seq!['-', '-']
        } else {
            seq![s.last()]
        }
    }
}

/// Device path of the logical volume of the drive `name`.
pub open spec fn lv_path_of(name: Seq<char>) -> Seq<char> {
    "/dev/mapper/"@ + dashes_doubled(name) + "-bsud"@
}

/// Device path of the logical volume of the drive `drive_name`.
pub fn lv_path(drive_name: &str) -> (r: String)
    ensures
        r@ == lv_path_of(drive_name@),
{
    let mut r = owned("/dev/mapper/");
    let n = drive_name.unicode_len();
    let mut i: usize = 0;
    while i < n
        invariant
            i <= n,
            n == drive_name@.len(),
            r@ == "/dev/mapper/"@ + dashes_doubled(drive_name@.subrange(0, i as int)),
        decreases n - i,
    {
        let c = drive_name.get_char(i);
        let ghost before = r@;
        if c == '-' {
            r.append("--");
            proof {
                reveal_strlit("--");
            }
        } else {
            r.append(drive_name.substring_char(i, i + 1));
        }
        proof {
            let s = drive_name@.subrange(0, i + 1);
            assert(s.drop_last() =~= drive_name@.subrange(0, i as int));
            assert(s.last() == c);
            let tail = if c == '-' { seq!['-', '-'] } else { seq![c] };
            assert(r@ =~= before + tail);
            assert(r@ =~= "/dev/mapper/"@ + dashes_doubled(s));
        }
        i = i + 1;
    }
    r.append("-bsud");
    assert(drive_name@.subrange(0, n as int) =~= drive_name@);
    assert(r@ =~= lv_path_of(drive_name@));
    r
}

/// The entry holds a volume group, and the first one is named `name`.
pub open spec fn has_vg_named(l: Lvm, name: Seq<char>) -> bool {
    l.vg@.len() > 0 && l.vg@[0].vg_name@ == name
}

/// The first entry of `reports` whose volume group is `name`.
pub open spec fn report_for(reports: Seq<Lvm>, name: Seq<char>) -> Option<Lvm>
    decreases reports.len(),
{
    if reports.len() == 0 {
        None
    } else if has_vg_named(reports[0], name) {
        Some(reports[0])
    } else {
        report_for(reports.drop_first(), name)
    }
}

/// The first entry of `reports` that holds no volume group.
pub open spec fn report_without_vg(reports: Seq<Lvm>) -> Option<Lvm>
    decreases reports.len(),
{
    if reports.len() == 0 {
        None
    } else if reports[0].vg@.len() == 0 {
        Some(reports[0])
    } else {
        report_without_vg(reports.drop_first())
    }
}

/// The report entry of the volume group `name`, if the report has one.
pub fn get_report<'a>(reports: &'a Vec<Lvm>, name: &String) -> (r: Option<&'a Lvm>)
    ensures
        match r {
            Some(l) => report_for(reports@, name@) == Some(*l),
            None => report_for(reports@, name@) is None,
        },
{
    let mut i: usize = 0;
    assert(reports@.subrange(0, reports@.len() as int) =~= reports@);
    while i < reports.len()
        invariant
            i <= reports@.len(),
            report_for(reports@, name@) == report_for(reports@.subrange(i as int, reports@.len() as int), name@),
        decreases reports@.len() - i,
    {
        let rest = Ghost(reports@.subrange(i as int, reports@.len() as int));
        assert(rest@[0] == reports@[i as int]);
        if reports[i].vg.len() > 0 && reports[i].vg[0].vg_name == *name {
            return Some(&reports[i]);
        }
        assert(rest@.drop_first() =~= reports@.subrange(i + 1, reports@.len() as int));
        i = i + 1;
    }
    None
}

/// The report entry of the physical volumes that belong to no volume group, if any.
pub fn get_report_with_no_vg<'a>(reports: &'a Vec<Lvm>) -> (r: Option<&'a Lvm>)
    ensures
        match r {
            Some(l) => report_without_vg(reports@) == Some(*l),
            None => report_without_vg(reports@) is None,
        },
{
    let mut i: usize = 0;
    assert(reports@.subrange(0, reports@.len() as int) =~= reports@);
    while i < reports.len()
        invariant
            i <= reports@.len(),
            report_without_vg(reports@) == report_without_vg(reports@.subrange(i as int, reports@.len() as int)),
        decreases reports@.len() - i,
    {
        let rest = Ghost(reports@.subrange(i as int, reports@.len() as int));
        assert(rest@[0] == reports@[i as int]);
        if reports[i].vg.len() == 0 {
            return Some(&reports[i]);
        }
        assert(rest@.drop_first() =~= reports@.subrange(i + 1, reports@.len() as int));
        i = i + 1;
    }
    None
}

pub open spec fn is_digit(c: char) -> bool {
    '0' <= c && c <= '9'
}

pub open spec fn all_digits(t: Seq<char>) -> bool {
    forall|i: int| 0 <= i < t.len() ==> is_digit(#[trigger] t[i])
}

/// The number that the decimal digits `t` write.
pub open spec fn digits_value(t: Seq<char>) -> nat
    decreases t.len(),
{
    if t.len() == 0 {
        0
    } else {
        digits_value(t.drop_last()) * 10 + ((t.last() as u32) - ('0' as u32)) as nat
    }
}

/// A size as the report writes it: a byte count followed by one unit letter.
pub open spec fn size_value(s: Seq<char>) -> Option<u64> {
    let t = s.drop_last();
    if s.len() >= 2 && all_digits(t) && digits_value(t) <= u64::MAX {
        Some(digits_value(t) as u64)
    } else {
        None
    }
}

proof fn lemma_digits_value_grows(t: Seq<char>, k: int)
    requires
        0 <= k <= t.len(),
        all_digits(t),
    ensures
        digits_value(t) >= digits_value(t.subrange(0, k)),
    decreases t.len(),
{
    if t.len() == k {
        assert(t.subrange(0, k) =~= t);
    } else {
        let u = t.drop_last();
        assert(all_digits(u)) by {
            assert forall|i: int| 0 <= i < u.len() implies is_digit(#[trigger] u[i]) by {
                assert(u[i] == t[i]);
            }
        }
        lemma_digits_value_grows(u, k);
        assert(u.subrange(0, k) =~= t.subrange(0, k));
    }
}

/// Reads a size written as a byte count followed by one unit letter (`"1024B"`).
pub fn parse_size(s: &str) -> (r: Option<u64>)
    ensures
        r == size_value(s@),
{
    let n = s.unicode_len();
    if n < 2 {
        return None;
    }
    let ghost t = s@.drop_last();
    let mut v: u64 = 0;
    let mut i: usize = 0;
    while i < n - 1
        invariant
            n == s@.len(),
            n >= 2,
            t == s@.drop_last(),
            i <= n - 1,
            all_digits(t.subrange(0, i as int)),
            v as nat == digits_value(t.subrange(0, i as int)),
        decreases n - 1 - i,
    {
        let c = s.get_char(i);
        assert(t[i as int] == c);
        if !('0' <= c && c <= '9') {
            assert(!all_digits(t));
            return None;
        }
        let d: u64 = ((c as u32) - ('0' as u32)) as u64;
        let ghost next = t.subrange(0, i + 1);
        assert(next.drop_last() =~= t.subrange(0, i as int));
        assert(next.last() == c);
        if v > (u64::MAX - d) / 10 {
            proof {
                assert(v * 10 + d > u64::MAX) by (nonlinear_arith)
                    requires
                        v > (u64::MAX - d) / 10,
                        d <= 9,
                ;
                if all_digits(t) {
                    lemma_digits_value_grows(t, i + 1);
                }
            }
            return None;
        }
        assert(v * 10 + d <= u64::MAX) by (nonlinear_arith)
            requires
                v <= (u64::MAX - d) / 10,
                d <= 9,
        ;
        v = v * 10 + d;
        assert(all_digits(next)) by {
            assert forall|j: int| 0 <= j < next.len() implies is_digit(#[trigger] next[j]) by {
                if j < i {
                    assert(next[j] == t.subrange(0, i as int)[j]);
                }
            }
        }
        i = i + 1;
    }
    assert(t.subrange(0, (n - 1) as int) =~= t);
    Some(v)
}

/// The size of the volume group `name`, in bytes.
pub open spec fn vg_size_of(reports: Seq<Lvm>, name: Seq<char>) -> Result<u64, LvmError> {
    match report_for(reports, name) {
        None => Err(LvmError::NoReport),
        Some(l) => if l.vg@.len() == 0 {
            Err(LvmError::NoVg)
        } else {
            match size_value(l.vg@[0].vg_size@) {
                Some(v) => Ok(v),
                None => Err(LvmError::BadSize),
            }
        },
    }
}

/// The size of the logical volume of the volume group `name`, in bytes.
pub open spec fn lv_size_of(reports: Seq<Lvm>, name: Seq<char>) -> Result<u64, LvmError> {
    match report_for(reports, name) {
        None => Err(LvmError::NoReport),
        Some(l) => if l.lv@.len() == 0 {
            Err(LvmError::NoLv)
        } else {
            match size_value(l.lv@[0].lv_size@) {
                Some(v) => Ok(v),
                None => Err(LvmError::BadSize),
            }
        },
    }
}

/// The volume group `name`, as its report entry gives it.
pub open spec fn vg_of(reports: Seq<Lvm>, name: Seq<char>) -> Result<Vg, LvmError> {
    match report_for(reports, name) {
        None => Err(LvmError::NoReport),
        Some(l) => if l.vg@.len() == 0 {
            Err(LvmError::NoVg)
        } else {
            Ok(l.vg@[0])
        },
    }
}

/// The first logical volume of the volume group `name`, as its report entry gives it.
pub open spec fn lv_of(reports: Seq<Lvm>, name: Seq<char>) -> Result<Lv, LvmError> {
    match report_for(reports, name) {
        None => Err(LvmError::NoReport),
        Some(l) => if l.lv@.len() == 0 {
            Err(LvmError::NoLv)
        } else {
            Ok(l.lv@[0])
        },
    }
}

/// The volume group `name` in the report.
pub fn get_vg<'a>(reports: &'a Vec<Lvm>, name: &String) -> (r: Result<&'a Vg, LvmError>)
    ensures
        match r {
            Ok(v) => vg_of(reports@, name@) == Ok::<Vg, LvmError>(*v),
            Err(e) => vg_of(reports@, name@) == Err::<Vg, LvmError>(e),
        },
{
    match get_report(reports, name) {
        None => Err(LvmError::NoReport),
        Some(l) => if l.vg.len() == 0 {
            Err(LvmError::NoVg)
        } else {
            Ok(&l.vg[0])
        },
    }
}

/// The logical volume of the volume group `name` in the report.
pub fn get_lv<'a>(reports: &'a Vec<Lvm>, name: &String) -> (r: Result<&'a Lv, LvmError>)
    ensures
        match r {
            Ok(v) => lv_of(reports@, name@) == Ok::<Lv, LvmError>(*v),
            Err(e) => lv_of(reports@, name@) == Err::<Lv, LvmError>(e),
        },
{
    match get_report(reports, name) {
        None => Err(LvmError::NoReport),
        Some(l) => if l.lv.len() == 0 {
            Err(LvmError::NoLv)
        } else {
            Ok(&l.lv[0])
        },
    }
}

/// The size of the volume group `vg_name` in bytes, as the report gives it.
pub fn get_vg_size_bytes(reports: &Vec<Lvm>, vg_name: &String) -> (r: Result<u64, LvmError>)
    ensures
        r == vg_size_of(reports@, vg_name@),
{
    match get_report(reports, vg_name) {
        None => Err(LvmError::NoReport),
        Some(l) => {
            if l.vg.len() == 0 {
                Err(LvmError::NoVg)
            } else {
                match parse_size(l.vg[0].vg_size.as_str()) {
                    Some(v) => Ok(v),
                    None => Err(LvmError::BadSize),
                }
            }
        },
    }
}

/// The size of the logical volume of `vg_name` in bytes, as the report gives it.
pub fn get_lv_size_bytes(reports: &Vec<Lvm>, vg_name: &String) -> (r: Result<u64, LvmError>)
    ensures
        r == lv_size_of(reports@, vg_name@),
{
    match get_report(reports, vg_name) {
        None => Err(LvmError::NoReport),
        Some(l) => {
            if l.lv.len() == 0 {
                Err(LvmError::NoLv)
            } else {
                match parse_size(l.lv[0].lv_size.as_str()) {
                    Some(v) => Ok(v),
                    None => Err(LvmError::BadSize),
                }
            }
        },
    }
}


/// Makes `path` an LVM physical volume.
pub fn init_pv(path: &String) -> (r: CommandLine)
    ensures
        r.words() == seq!["lvm"@, "pvcreate"@, path@],
{
    let r = command_of("lvm", &["pvcreate", path.as_str()]);
    assert(r.words() =~= seq!["lvm"@, "pvcreate"@, path@]);
    r
}

/// Creates the volume group `vg_name` on its first physical volume.
pub fn vg_create(vg_name: &String, initial_pv_path: &String) -> (r: CommandLine)
    ensures
        r.words() == seq!["lvm"@, "vgcreate"@, "--alloc"@, "normal"@, vg_name@, initial_pv_path@],
{
    let r = command_of("lvm", &["vgcreate", "--alloc", "normal", vg_name.as_str(), initial_pv_path.as_str()]);
    assert(r.words() =~= seq!["lvm"@, "vgcreate"@, "--alloc"@, "normal"@, vg_name@, initial_pv_path@]);
    r
}

/// Adds a physical volume to the volume group `vg_name`.
pub fn extend_vg(vg_name: &String, pv_device_path: &String) -> (r: CommandLine)
    ensures
        r.words() == seq!["lvm"@, "vgextend"@, vg_name@, pv_device_path@],
{
    let r = command_of("lvm", &["vgextend", vg_name.as_str(), pv_device_path.as_str()]);
    assert(r.words() =~= seq!["lvm"@, "vgextend"@, vg_name@, pv_device_path@]);
    r
}

/// Creates the logical volume `bsud` over all the free extents of `vg_name`.
pub fn create_lv(vg_name: &String) -> (r: CommandLine)
    ensures
        r.words() == seq!["lvm"@, "lvcreate"@, "--extents"@, "100%FREE"@, "-n"@, "bsud"@, vg_name@],
{
    let r = command_of("lvm", &["lvcreate", "--extents", "100%FREE", "-n", "bsud", vg_name.as_str()]);
    assert(r.words() =~= seq!["lvm"@, "lvcreate"@, "--extents"@, "100%FREE"@, "-n"@, "bsud"@, vg_name@]);
    r
}

/// Grows the logical volume at `lv_path` over all the free extents of its group.
pub fn lv_extend_full(lv_path: &String) -> (r: CommandLine)
    ensures
        r.words() == seq!["lvm"@, "lvextend"@, "--extents"@, "+100%FREE"@, lv_path@],
{
    let r = command_of("lvm", &["lvextend", "--extents", "+100%FREE", lv_path.as_str()]);
    assert(r.words() =~= seq!["lvm"@, "lvextend"@, "--extents"@, "+100%FREE"@, lv_path@]);
    r
}

/// Rescans the devices for volume groups.
pub fn vg_scan() -> (r: CommandLine)
    ensures
        r.words() == seq!["vgscan"@],
{
    let r = command_of("vgscan", &[]);
    assert(r.words() =~= seq!["vgscan"@]);
    r
}

/// Moves every allocated extent off the physical volume `pv_path` (a run with nothing to move is no failure).
pub fn pv_move(pv_path: &String) -> (r: CommandLine)
    ensures
        r.words() == seq!["lvm"@, "pvmove"@, pv_path@],
{
    let r = command_of("lvm", &["pvmove", pv_path.as_str()]);
    assert(r.words() =~= seq!["lvm"@, "pvmove"@, pv_path@]);
    r
}

/// Resumes any extent move that was interrupted (a run with nothing to resume is no failure).
pub fn pv_move_no_arg() -> (r: CommandLine)
    ensures
        r.words() == seq!["lvm"@, "pvmove"@],
{
    let r = command_of("lvm", &["pvmove"]);
    assert(r.words() =~= seq!["lvm"@, "pvmove"@]);
    r
}

/// Takes the physical volume `device_path` out of the volume group `name`.
pub fn vg_reduce(name: &String, device_path: &String) -> (r: CommandLine)
    ensures
        r.words() == seq!["lvm"@, "vgreduce"@, name@, device_path@],
{
    let r = command_of("lvm", &["vgreduce", name.as_str(), device_path.as_str()]);
    assert(r.words() =~= seq!["lvm"@, "vgreduce"@, name@, device_path@]);
    r
}

/// Wipes the physical volume label of `device_path`.
pub fn pv_remove(device_path: &String) -> (r: CommandLine)
    ensures
        r.words() == seq!["lvm"@, "pvremove"@, device_path@],
{
    let r = command_of("lvm", &["pvremove", device_path.as_str()]);
    assert(r.words() =~= seq!["lvm"@, "pvremove"@, device_path@]);
    r
}

/// Activates (`-ay`) or deactivates (`-an`) the volume group `vg_name`.
pub fn vg_activate(activate: bool, vg_name: &String) -> (r: CommandLine)
    ensures
        r.words() == seq!["vgchange"@, if activate { "-ay"@ } else { "-an"@ }, vg_name@],
{
    let flag = if activate { "-ay" } else { "-an" };
    let r = command_of("vgchange", &[flag, vg_name.as_str()]);
    assert(r.words() =~= seq!["vgchange"@, if activate { "-ay"@ } else { "-an"@ }, vg_name@]);
    r
}

/// Activates (`-ay`) or deactivates (`-an`) the logical volumes of `lv_name`.
pub fn lv_activate(activate: bool, lv_name: &String) -> (r: CommandLine)
    ensures
        r.words() == seq!["lvchange"@, if activate { "-ay"@ } else { "-an"@ }, lv_name@],
{
    let flag = if activate { "-ay" } else { "-an" };
    let r = command_of("lvchange", &[flag, lv_name.as_str()]);
    assert(r.words() =~= seq!["lvchange"@, if activate { "-ay"@ } else { "-an"@ }, lv_name@]);
    r
}

/// Shrinks the logical volume at `lv_path` to `new_fs_size_bytes` bytes, answering yes to prompts.
pub fn lv_reduce(lv_path: &String, new_fs_size_bytes: u64) -> (r: CommandLine)
    ensures
        r.words() == seq!["lvm"@, "lvreduce"@, "--yes"@, "--size"@, decimal(new_fs_size_bytes as nat) + "B"@, lv_path@],
{
    let mut size = decimal_string(new_fs_size_bytes);
    size.append("B");
    let r = command_of("lvm", &["lvreduce", "--yes", "--size", size.as_str(), lv_path.as_str()]);
    assert(r.words() =~= seq!["lvm"@, "lvreduce"@, "--yes"@, "--size"@, decimal(new_fs_size_bytes as nat) + "B"@, lv_path@]);
    r
}

} // verus!
