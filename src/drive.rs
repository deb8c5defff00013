//! The drive reconciler: one state machine per drive that drives the world toward its
//! target, and the growth and shrink policy of online drives.
//!
//! The machine decides; its caller acts. Each call of [`Drive::step`] takes what came of
//! the last [`Action`] (an [`Event`]) and returns the next action.
use vstd::prelude::*;
use crate::bsu::{
    copy_opt, is_attached_to, request_of, select, views, Bsu, BsuView,
    VolumeRequest, VolumeRequestView,
};
use crate::config::{ConfigFileDrive, DiskType, DriveTarget};
use crate::fs::{seems_formatted, FsError, FsStats};
use crate::lvm::{
    lv_path_of, lv_size_of, report_for, report_without_vg, vg_size_of, Lvm, LvmError,
};
use crate::utils::{ceil_gib, decimal, gib, CommandLine};

verus! {

/// Seconds a drive rests between two reconciles.
pub const RECONCILE_COOLDOWN_S: i64 = 30;

pub const DEFAULT_INITIAL_DISK_GIB: u64 = 10;

pub const DEFAULT_MAX_DISKS: usize = 10;

pub const DEFAULT_MAX_USED_PERC: u64 = 85;

pub const DEFAULT_MIN_USED_PERC: u64 = 40;

pub const DEFAULT_SCALE_FACTOR_PERC: u64 = 20;

/// Largest volume the cloud creates, in GiB.
pub const MAX_BSU_SIZE_GIB: u64 = 14901;

/// A command sent to a drive's worker.
#[derive(Clone, Copy, Debug, PartialEq, Eq, Structural)]
pub enum DriveCmd {
    Stop,
}

/// Why a reconcile stopped short.
#[derive(Clone, Copy, Debug, PartialEq, Eq, Structural)]
pub enum DriveError {
    /// A setting breaks the drive's invariants.
    ConfigInvalid,
    /// A stop was asked for; not a failure.
    EarlyExit,
    /// An event that the current step does not wait for.
    UnexpectedEvent,
    /// No unassigned physical volume to create the volume group on.
    NoFreePv,
    /// The report has no entry for the drive's volume group.
    LvmNotFound,
    /// A size could not be read from the LVM report.
    Lvm(LvmError),
    /// The volume group is smaller than its logical volume.
    VgSmallerThanLv,
    /// The filesystem is larger than its logical volume.
    FsLargerThanLv,
    /// The filesystem is mounted, but elsewhere.
    Fs(FsError),
    /// No space figures for the mounted filesystem.
    NoStats,
    /// The drive has no volume to size or to remove.
    NoVolume,
    /// The free space is smaller than the volume to remove.
    NotEnoughSpace,
    /// The volume to remove has no device path.
    NoDevicePath,
}

/// Where a reconcile stands: the event it waits for next.
#[derive(Clone, Copy, Debug, PartialEq, Eq, Structural)]
pub enum Phase {
    /// No reconcile under way.
    Idle,
    // Online staircase.
    Resume,
    Volumes,
    Presence,
    Attached,
    Created,
    PvReport,
    PvInit,
    VgScan,
    VgReport,
    VgCreated,
    VgActivated,
    ExtendReport,
    VgExtended,
    LvReport,
    LvCreated,
    LvActivated,
    SizesReport,
    LvExtended,
    Head,
    Formatted,
    Folder,
    FolderCreated,
    Mount,
    Mounted,
    Usage,
    FsExtended,
    // Removal of one volume.
    ShrinkResized,
    ShrinkMoved,
    ShrinkReduced,
    RegrowReport,
    Regrown,
    VictimDetached,
    VictimDeleted,
    // Offline and delete.
    OffMount,
    Unmounted,
    LvOff,
    VgOff,
    OffVolumes,
    OffDetached,
    OffRefetch,
    OffScan,
    Deleted,
}

/// What the caller is to do next.
#[derive(Clone, Debug, PartialEq)]
pub enum Action {
    /// Run the commands in order; the first failure ends the reconcile.
    Run(Vec<CommandLine>),
    /// Run the command; its exit status does not matter.
    RunLenient(CommandLine),
    /// Run the command; no failure of it matters.
    TryRun(CommandLine),
    /// List the drive's usable volumes: answer `Volumes`.
    ListVolumes,
    /// Tell for each path whether it exists: answer `Present`.
    ProbeDevices(Vec<String>),
    /// Attach the volumes to this machine and wait until they are in use.
    Attach(Vec<Bsu>),
    /// Detach the volumes and wait until they are available.
    Detach(Vec<Bsu>),
    /// Create, tag and wait for a volume.
    Create(VolumeRequest),
    /// Delete the volumes.
    Delete(Vec<Bsu>),
    /// Read the LVM full report: answer `Report`.
    ReadLvm,
    /// Read the first megabyte of the device: answer `Head`.
    ReadHead(String),
    /// Tell whether the path is a directory: answer `Folder`.
    IsFolder(String),
    /// Create the directory.
    CreateFolder(String),
    /// Tell where the device is mounted: answer `Mount`.
    ReadMount(String),
    /// Read the LVM full report and the space figures of the device: answer `Usage`.
    ReadUsage(String),
    /// The reconcile is over and succeeded.
    Finish,
    /// The reconcile is over and failed.
    Fail(DriveError),
}

/// What came of the last action.
#[derive(Clone, Debug, PartialEq)]
pub enum Event {
    /// The action was carried out.
    Done,
    Volumes(Vec<Bsu>),
    Present(Vec<bool>),
    Report(Vec<Lvm>),
    Head(Vec<u8>),
    Folder(bool),
    Mount(Option<String>),
    Usage(Vec<Lvm>, Option<FsStats>),
}

pub enum ActionView {
    Run(Seq<Seq<Seq<char>>>),
    RunLenient(Seq<Seq<char>>),
    TryRun(Seq<Seq<char>>),
    ListVolumes,
    ProbeDevices(Seq<Seq<char>>),
    Attach(Seq<BsuView>),
    Detach(Seq<BsuView>),
    Create(VolumeRequestView),
    Delete(Seq<BsuView>),
    ReadLvm,
    ReadHead(Seq<char>),
    IsFolder(Seq<char>),
    CreateFolder(Seq<char>),
    ReadMount(Seq<char>),
    ReadUsage(Seq<char>),
    Finish,
    Fail(DriveError),
}

pub enum EventView {
    Done,
    Volumes(Seq<BsuView>),
    Present(Seq<bool>),
    Report(Seq<Lvm>),
    Head(Seq<u8>),
    Folder(bool),
    Mount(Option<Seq<char>>),
    Usage(Seq<Lvm>, Option<FsStats>),
}

pub open spec fn words_of(cmds: Seq<CommandLine>) -> Seq<Seq<Seq<char>>> {
    cmds.map_values(|c: CommandLine| c.words())
}

pub open spec fn strs_of(v: Seq<String>) -> Seq<Seq<char>> {
    v.map_values(|s: String| s@)
}

impl View for Action {
    type V = ActionView;

    open spec fn view(&self) -> ActionView {
        match self {
            Action::Run(c) => ActionView::Run(words_of(c@)),
            Action::RunLenient(c) => ActionView::RunLenient(c.words()),
            Action::TryRun(c) => ActionView::TryRun(c.words()),
            Action::ListVolumes => ActionView::ListVolumes,
            Action::ProbeDevices(p) => ActionView::ProbeDevices(strs_of(p@)),
            Action::Attach(b) => ActionView::Attach(views(b@)),
            Action::Detach(b) => ActionView::Detach(views(b@)),
            Action::Create(r) => ActionView::Create(r@),
            Action::Delete(b) => ActionView::Delete(views(b@)),
            Action::ReadLvm => ActionView::ReadLvm,
            Action::ReadHead(p) => ActionView::ReadHead(p@),
            Action::IsFolder(p) => ActionView::IsFolder(p@),
            Action::CreateFolder(p) => ActionView::CreateFolder(p@),
            Action::ReadMount(p) => ActionView::ReadMount(p@),
            Action::ReadUsage(p) => ActionView::ReadUsage(p@),
            Action::Finish => ActionView::Finish,
            Action::Fail(e) => ActionView::Fail(*e),
        }
    }
}

impl View for Event {
    type V = EventView;

    open spec fn view(&self) -> EventView {
        match self {
            Event::Done => EventView::Done,
            Event::Volumes(b) => EventView::Volumes(views(b@)),
            Event::Present(p) => EventView::Present(p@),
            Event::Report(r) => EventView::Report(r@),
            Event::Head(h) => EventView::Head(h@),
            Event::Folder(f) => EventView::Folder(*f),
            Event::Mount(m) => EventView::Mount(crate::bsu::opt_view(*m)),
            Event::Usage(r, s) => EventView::Usage(r@, *s),
        }
    }
}

/// A drive: its settings, and what the reconcile under way knows.
pub struct Drive {
    pub name: String,
    pub target: DriveTarget,
    pub mount_path: String,
    pub disk_type: DiskType,
    pub disk_iops_per_gib: Option<u64>,
    pub max_total_size_gib: Option<u64>,
    pub initial_size_gib: u64,
    pub max_bsu_count: usize,
    /// Used space, in percent of the filesystem size, at and above which the drive grows.
    pub max_used_space_perc: u64,
    /// Used space, in percent of the filesystem size, at and below which the drive shrinks.
    pub min_used_space_perc: u64,
    /// Step between volume sizes, in percent.
    pub disk_scale_factor_perc: u64,
    /// The machine this daemon runs on.
    vm_id: String,
    phase: Phase,
    /// The volumes of the drive, as last listed.
    all_bsu: Vec<Bsu>,
    /// The volume being removed.
    victim: Option<Bsu>,
    exit: bool,
    last_reconcile_s: i64,
}

pub struct DriveView {
    pub name: Seq<char>,
    pub target: DriveTarget,
    pub mount_path: Seq<char>,
    pub disk_type: DiskType,
    pub disk_iops_per_gib: Option<u64>,
    pub max_total_size_gib: Option<u64>,
    pub initial_size_gib: u64,
    pub max_bsu_count: usize,
    pub max_used_space_perc: u64,
    pub min_used_space_perc: u64,
    pub disk_scale_factor_perc: u64,
    pub vm_id: Seq<char>,
    pub phase: Phase,
    pub all_bsu: Seq<BsuView>,
    pub victim: Option<BsuView>,
    pub exit: bool,
    pub last_reconcile_s: i64,
}

pub open spec fn opt_bsu_view(o: Option<Bsu>) -> Option<BsuView> {
    match o {
        Some(b) => Some(b@),
        None => None,
    }
}

impl View for Drive {
    type V = DriveView;

    closed spec fn view(&self) -> DriveView {
        DriveView {
            name: self.name@,
            target: self.target,
            mount_path: self.mount_path@,
            disk_type: self.disk_type,
            disk_iops_per_gib: self.disk_iops_per_gib,
            max_total_size_gib: self.max_total_size_gib,
            initial_size_gib: self.initial_size_gib,
            max_bsu_count: self.max_bsu_count,
            max_used_space_perc: self.max_used_space_perc,
            min_used_space_perc: self.min_used_space_perc,
            disk_scale_factor_perc: self.disk_scale_factor_perc,
            vm_id: self.vm_id@,
            phase: self.phase,
            all_bsu: views(self.all_bsu@),
            victim: opt_bsu_view(self.victim),
            exit: self.exit,
            last_reconcile_s: self.last_reconcile_s,
        }
    }
}

/// The settings keep the drive's invariants: thresholds in order, a first volume of at
/// least 1 GiB and room for two volumes.
pub open spec fn settings_ok(
    max_used: u64,
    min_used: u64,
    scale: u64,
    initial: u64,
    max_count: usize,
) -> bool {
    min_used < max_used && 1 <= initial && max_count >= 2
}

impl DriveView {
    pub open spec fn wf(self) -> bool {
        settings_ok(
            self.max_used_space_perc,
            self.min_used_space_perc,
            self.disk_scale_factor_perc,
            self.initial_size_gib,
            self.max_bsu_count,
        )
    }
}

pub open spec fn or_default<T>(o: Option<T>, d: T) -> T {
    match o {
        Some(v) => v,
        None => d,
    }
}

/// The settings of `c` with their defaults, as a drive holds them: a drive that has not
/// reconciled yet and knows no volume.
pub open spec fn drive_of(c: ConfigFileDrive, vm_id: Seq<char>, last: i64) -> DriveView {
    DriveView {
        name: c.name@,
        target: c.target,
        mount_path: c.mount_path@,
        disk_type: or_default(c.disk_type, DiskType::Gp2),
        disk_iops_per_gib: c.disk_iops_per_gib,
        max_total_size_gib: c.max_total_size_gib,
        initial_size_gib: or_default(c.initial_size_gib, 10),
        max_bsu_count: or_default(c.max_bsu_count, 10),
        max_used_space_perc: or_default(c.max_used_space_perc, 85),
        min_used_space_perc: or_default(c.min_used_space_perc, 40),
        disk_scale_factor_perc: or_default(c.disk_scale_factor_perc, 20),
        vm_id,
        phase: Phase::Idle,
        all_bsu: Seq::empty(),
        victim: None,
        exit: false,
        last_reconcile_s: last,
    }
}

/// A reconcile is due at the clock reading `now` (whole seconds): the readings differ by
/// more than the cooldown, so more than the cooldown has passed since the last one.
pub open spec fn due(d: DriveView, now: i64) -> bool {
    now - d.last_reconcile_s > 30
}

impl Drive {
    /// A drive from its configuration, on the machine `vm_id`, at the clock reading `now_s`.
    /// Its last reconcile is taken to be one cooldown before `now_s`, so the first one is
    /// due at the next second.
    /// Settings that break the drive's invariants are refused.
    pub fn new(config: ConfigFileDrive, vm_id: String, now_s: i64) -> (r: Result<Drive, DriveError>)
        ensures
            match r {
                Ok(d) => d@ == drive_of(config, vm_id@, if now_s >= i64::MIN + 30 { (now_s - 30) as i64 } else { i64::MIN })
                    && d@.wf(),
                Err(e) => e == DriveError::ConfigInvalid && !drive_of(config, vm_id@, 0).wf(),
            },
    {
        let disk_type = match config.disk_type {
            Some(t) => t,
            None => DiskType::Gp2,
        };
        let initial_size_gib = match config.initial_size_gib {
            Some(v) => v,
            None => DEFAULT_INITIAL_DISK_GIB,
        };
        let max_bsu_count = match config.max_bsu_count {
            Some(v) => v,
            None => DEFAULT_MAX_DISKS,
        };
        let max_used_space_perc = match config.max_used_space_perc {
            Some(v) => v,
            None => DEFAULT_MAX_USED_PERC,
        };
        let min_used_space_perc = match config.min_used_space_perc {
            Some(v) => v,
            None => DEFAULT_MIN_USED_PERC,
        };
        let disk_scale_factor_perc = match config.disk_scale_factor_perc {
            Some(v) => v,
            None => DEFAULT_SCALE_FACTOR_PERC,
        };
        if !(min_used_space_perc < max_used_space_perc && 1 <= initial_size_gib && max_bsu_count >= 2) {
            return Err(DriveError::ConfigInvalid);
        }
        let last = if now_s >= i64::MIN + 30 { now_s - RECONCILE_COOLDOWN_S } else { i64::MIN };
        let d = Drive {
            name: config.name,
            target: config.target,
            mount_path: config.mount_path,
            disk_type,
            disk_iops_per_gib: config.disk_iops_per_gib,
            max_total_size_gib: config.max_total_size_gib,
            initial_size_gib,
            max_bsu_count,
            max_used_space_perc,
            min_used_space_perc,
            disk_scale_factor_perc,
            vm_id,
            phase: Phase::Idle,
            all_bsu: Vec::new(),
            victim: None,
            exit: false,
            last_reconcile_s: last,
        };
        assert(d@.all_bsu =~= Seq::<BsuView>::empty());
        Ok(d)
    }

    /// Whether no reconcile is under way.
    pub fn is_idle(&self) -> (r: bool)
        ensures
            r == (self@.phase == Phase::Idle),
    {
        self.phase == Phase::Idle
    }

    /// Whether a stop was asked for.
    pub fn exit_requested(&self) -> (r: bool)
        ensures
            r == self@.exit,
    {
        self.exit
    }

    /// Takes a command polled from the drive's channel: a stop marks the drive for exit
    /// and ends the reconcile under way with `EarlyExit`.
    pub fn early_exit(&mut self, cmd: Option<DriveCmd>) -> (r: Result<(), DriveError>)
        ensures
            match cmd {
                Some(DriveCmd::Stop) => r == Err::<(), DriveError>(DriveError::EarlyExit)
                    && final(self)@ == (DriveView { exit: true, phase: Phase::Idle, victim: None, ..old(self)@ }),
                None => r == Ok::<(), DriveError>(()) && final(self)@ == old(self)@,
            },
    {
        match cmd {
            Some(DriveCmd::Stop) => {
                self.exit = true;
                self.phase = Phase::Idle;
                self.victim = None;
                Err(DriveError::EarlyExit)
            },
            None => Ok(()),
        }
    }

    /// Whether a reconcile is due at the clock reading `now_s`.
    pub fn is_due(&self, now_s: i64) -> (r: bool)
        ensures
            r == due(self@, now_s),
    {
        (now_s as i128) - (self.last_reconcile_s as i128) > RECONCILE_COOLDOWN_S as i128
    }

    /// A drive from its configuration, created at the clock's current reading (which it
    /// also gives), as [`Drive::new`] makes it.
    pub fn new_now(config: ConfigFileDrive, vm_id: String) -> (r: (Result<Drive, DriveError>, i64))
        ensures
            match r.0 {
                Ok(d) => d@ == drive_of(config, vm_id@, if r.1 >= i64::MIN + 30 { (r.1 - 30) as i64 } else { i64::MIN })
                    && d@.wf(),
                Err(e) => e == DriveError::ConfigInvalid && !drive_of(config, vm_id@, 0).wf(),
            },
    {
        let now = crate::utils::now_seconds();
        (Drive::new(config, vm_id, now), now)
    }

    /// Whether a reconcile is due now; also gives the time read.
    pub fn is_due_now(&self) -> (r: (bool, i64))
        ensures
            r.0 == due(self@, r.1),
    {
        let now = crate::utils::now_seconds();
        (self.is_due(now), now)
    }

    /// Records that a reconcile ended now; gives the time read.
    pub fn mark_reconciled_now(&mut self) -> (t: i64)
        ensures
            final(self)@ == (DriveView { last_reconcile_s: t, ..old(self)@ }),
    {
        let now = crate::utils::now_seconds();
        self.last_reconcile_s = now;
        now
    }
}

// ---------------------------------------------------------------------------------
// Policy.

/// Total size of the volumes, in bytes.
pub open spec fn total_bytes(bs: Seq<BsuView>) -> nat
    decreases bs.len(),
{
    if bs.len() == 0 {
        0
    } else {
        total_bytes(bs.drop_last()) + bs.last().size_bytes as nat
    }
}

/// Total size of the volumes, in GiB rounded up.
pub open spec fn total_gib(bs: Seq<BsuView>) -> nat {
    ceil_gib(total_bytes(bs))
}

/// Index of the first volume of the greatest size in bytes (volumes of no size never count).
pub open spec fn largest_index(bs: Seq<BsuView>) -> Option<int>
    decreases bs.len(),
{
    if bs.len() == 0 {
        None
    } else {
        let r = largest_index(bs.drop_last());
        let best: int = match r {
            Some(i) => bs[i].size_bytes as int,
            None => 0,
        };
        if bs.last().size_bytes > best {
            Some(bs.len() - 1)
        } else {
            r
        }
    }
}

/// Index of the first volume of the least size in bytes (sizes of `u64::MAX` never count).
pub open spec fn smallest_index(bs: Seq<BsuView>) -> Option<int>
    decreases bs.len(),
{
    if bs.len() == 0 {
        None
    } else {
        let r = smallest_index(bs.drop_last());
        let best: int = match r {
            Some(i) => bs[i].size_bytes as int,
            None => u64::MAX as int,
        };
        if (bs.last().size_bytes as int) < best {
            Some(bs.len() - 1)
        } else {
            r
        }
    }
}

/// Used space at or above the growth threshold.
pub open spec fn low_space(d: DriveView, st: FsStats) -> bool {
    st.used * 100 >= d.max_used_space_perc * st.size
}

/// Used space at or below the shrink threshold.
pub open spec fn high_space(d: DriveView, st: FsStats) -> bool {
    st.used * 100 <= d.min_used_space_perc * st.size
}

/// The drive holds as much as its configured cap allows (never, without a cap).
pub open spec fn max_space_reached(d: DriveView) -> bool {
    match d.max_total_size_gib {
        Some(m) => total_gib(d.all_bsu) >= m,
        None => false,
    }
}

/// The smallest volume is no larger than the first volume's size.
pub open spec fn contains_smallest(d: DriveView) -> bool {
    match smallest_index(d.all_bsu) {
        Some(i) => d.all_bsu[i].size_gib <= d.initial_size_gib,
        None => false,
    }
}

/// `ceil(a / b)`.
pub open spec fn ceil_div(a: int, b: int) -> int {
    (a + b - 1) / b
}

/// Size of a volume one step larger than the largest: `min(14901, ceil(largest · (1 + scale)))`.
pub open spec fn larger_gib(d: DriveView) -> u64 {
    let largest: int = match largest_index(d.all_bsu) {
        Some(i) => d.all_bsu[i].size_gib as int,
        None => 0,
    };
    let grown = ceil_div(largest * (100 + d.disk_scale_factor_perc), 100);
    (if grown < MAX_BSU_SIZE_GIB { grown } else { MAX_BSU_SIZE_GIB as int }) as u64
}

/// Size of a volume one step smaller than the smallest: `max(initial, ceil(smallest · (1 − scale)))`,
/// where a scale above 100% leaves nothing of the smallest (the first size wins).
pub open spec fn smaller_gib(d: DriveView) -> u64 {
    let smallest: int = match smallest_index(d.all_bsu) {
        Some(i) => d.all_bsu[i].size_gib as int,
        None => 0,
    };
    let kept: int = if d.disk_scale_factor_perc >= 100 { 0 } else { 100 - d.disk_scale_factor_perc };
    let shrunk = ceil_div(smallest * kept, 100);
    (if shrunk > d.initial_size_gib { shrunk } else { d.initial_size_gib as int }) as u64
}

/// The filesystem size that would put the use midway between the thresholds, kept
/// between the first volume's size and the current filesystem size.
pub open spec fn ideal_bytes(d: DriveView, st: FsStats) -> u64 {
    let mid = ceil_div(st.used * 200, d.min_used_space_perc + d.max_used_space_perc);
    let floor = d.initial_size_gib * gib();
    let raised = if mid > floor { mid } else { floor };
    (if raised < st.size { raised } else { st.size as int }) as u64
}

/// What the growth and shrink policy asks of a mounted, consistent drive.
#[derive(Clone, Copy, Debug, PartialEq, Eq, Structural)]
pub enum Plan {
    /// Use is between the thresholds.
    Stable,
    /// Low on space, but the size cap is reached.
    Bounded,
    /// Plenty of space, but the drive is one volume of the first size.
    Minimal,
    /// Too many volumes: remove the smallest.
    RemoveSmallest,
    /// Plenty of space on several volumes: remove the largest.
    RemoveLargest,
    /// Add a volume of this many GiB.
    Grow(u64),
}

/// The growth and shrink policy, in order: at or above the volume count cap, remove the
/// smallest volume; low on space, stop at the size cap, else add a volume, smaller than
/// the smallest while not one short of the count cap and while no volume is at or below
/// the first size, larger than the largest otherwise (a drive whose smallest volume sits
/// at the first size grows by a larger one, as the scenario of a full 10 GiB drive asks);
/// plenty of space, remove the largest of several volumes, leave a single volume of the
/// first size alone, else add one volume of the ideal size.
pub open spec fn plan(d: DriveView, st: FsStats) -> Plan {
    if d.all_bsu.len() >= d.max_bsu_count {
        Plan::RemoveSmallest
    } else if low_space(d, st) {
        if max_space_reached(d) {
            Plan::Bounded
        } else if d.all_bsu.len() != d.max_bsu_count - 1 && !contains_smallest(d) {
            Plan::Grow(smaller_gib(d))
        } else {
            Plan::Grow(larger_gib(d))
        }
    } else if high_space(d, st) {
        if d.all_bsu.len() > 1 {
            Plan::RemoveLargest
        } else if total_gib(d.all_bsu) == d.initial_size_gib {
            Plan::Minimal
        } else {
            Plan::Grow(ceil_gib(ideal_bytes(d, st) as nat) as u64)
        }
    } else {
        Plan::Stable
    }
}

// ---------------------------------------------------------------------------------
// Staircase predicates.

/// The device path of each volume (empty when the cloud gives none).
pub open spec fn device_paths(bs: Seq<BsuView>) -> Seq<Seq<char>> {
    bs.map_values(|b: BsuView| match b.device_path {
        Some(p) => p,
        None => Seq::empty(),
    })
}

/// The volume is attached to `vm` and its device is there.
pub open spec fn attached_here(b: BsuView, vm: Seq<char>, present: bool) -> bool {
    b.vm_id == Some(vm) && b.device_path is Some && present
}

/// Every volume is attached to `vm` with its device there.
pub open spec fn all_attached(bs: Seq<BsuView>, vm: Seq<char>, present: Seq<bool>) -> bool {
    forall|i: int| 0 <= i < bs.len() ==> attached_here(bs[i], vm, #[trigger] present[i])
}

/// The report entry lists the physical volume `p`.
pub open spec fn lists_pv(l: Lvm, p: Seq<char>) -> bool {
    exists|j: int| 0 <= j < l.pv@.len() && (#[trigger] l.pv@[j]).pv_name@ == p
}

/// There is a report entry, and it lists the physical volume `p`.
pub open spec fn in_report(l: Option<Lvm>, p: Seq<char>) -> bool {
    match l {
        Some(l) => lists_pv(l, p),
        None => false,
    }
}

/// The devices of the volumes that LVM does not know as physical volumes, neither
/// unassigned nor in the volume group `name`.
pub open spec fn missing_pvs(bs: Seq<BsuView>, reports: Seq<Lvm>, name: Seq<char>) -> Seq<Seq<char>>
    decreases bs.len(),
{
    if bs.len() == 0 {
        Seq::empty()
    } else {
        let r = missing_pvs(bs.drop_last(), reports, name);
        match bs.last().device_path {
            Some(p) => if !in_report(report_without_vg(reports), p) && !in_report(report_for(reports, name), p) {
                r.push(p)
            } else {
                r
            },
            None => r,
        }
    }
}

/// The devices of the volumes that are physical volumes of no volume group.
pub open spec fn unassigned_pvs(bs: Seq<BsuView>, reports: Seq<Lvm>) -> Seq<Seq<char>>
    decreases bs.len(),
{
    if bs.len() == 0 {
        Seq::empty()
    } else {
        let r = unassigned_pvs(bs.drop_last(), reports);
        match bs.last().device_path {
            Some(p) => if in_report(report_without_vg(reports), p) {
                r.push(p)
            } else {
                r
            },
            None => r,
        }
    }
}


/// The LVM report entry lists the physical volume `p`.
fn lvm_has_pv(l: &Lvm, p: &String) -> (r: bool)
    ensures
        r == lists_pv(*l, p@),
{
    let mut j: usize = 0;
    while j < l.pv.len()
        invariant
            j <= l.pv@.len(),
            forall|k: int| 0 <= k < j ==> (#[trigger] l.pv@[k]).pv_name@ != p@,
        decreases l.pv@.len() - j,
    {
        if l.pv[j].pv_name == *p {
            return true;
        }
        j = j + 1;
    }
    false
}

/// Whether the unassigned entry of `reports` lists `p`.
fn is_unassigned_pv(reports: &Vec<Lvm>, p: &String) -> (r: bool)
    ensures
        r == in_report(report_without_vg(reports@), p@),
{
    match crate::lvm::get_report_with_no_vg(reports) {
        Some(l) => lvm_has_pv(l, p),
        None => false,
    }
}

/// Whether the entry of the volume group `name` lists `p`.
fn is_pv_of(reports: &Vec<Lvm>, name: &String, p: &String) -> (r: bool)
    ensures
        r == in_report(report_for(reports@, name@), p@),
{
    match crate::lvm::get_report(reports, name) {
        Some(l) => lvm_has_pv(l, p),
        None => false,
    }
}

impl Drive {
    /// Number of volumes of the drive, as last listed.
    pub fn bsu_count(&self) -> (r: usize)
        ensures
            r == self@.all_bsu.len(),
    {
        self.all_bsu.len()
    }

    /// Total size of the drive's volumes, in GiB rounded up.
    pub fn all_bsu_size_gib(&self) -> (r: u128)
        ensures
            r == total_gib(self@.all_bsu),
    {
        let ghost bs = views(self.all_bsu@);
        let mut total: u128 = 0;
        let mut i: usize = 0;
        assert(bs.subrange(0, 0) =~= Seq::<BsuView>::empty());
        while i < self.all_bsu.len()
            invariant
                i <= self.all_bsu@.len(),
                bs == views(self.all_bsu@),
                total == total_bytes(bs.subrange(0, i as int)),
                total <= i * 18446744073709551615,
            decreases self.all_bsu@.len() - i,
        {
            assert(bs.subrange(0, i + 1).drop_last() =~= bs.subrange(0, i as int));
            assert(bs[i as int] == self.all_bsu@[i as int]@);
            total = total + self.all_bsu[i].size_bytes as u128;
            i = i + 1;
        }
        assert(bs.subrange(0, bs.len() as int) =~= bs);
        let q = total / 1073741824;
        let r = if total % 1073741824 == 0 { q } else { q + 1 };
        assert(r == ceil_gib(total as nat)) by (nonlinear_arith)
            requires
                q == total / 1073741824,
                r == if total % 1073741824 == 0 { q } else { (q + 1) as u128 },
                gib() == 1073741824,
        ;
        r
    }

    /// Index of the largest volume.
    fn largest_index(&self) -> (r: Option<usize>)
        ensures
            match r {
                Some(i) => largest_index(self@.all_bsu) == Some(i as int) && i < self@.all_bsu.len(),
                None => largest_index(self@.all_bsu) is None,
            },
    {
        let ghost bs = views(self.all_bsu@);
        let mut best: Option<usize> = None;
        let mut best_size: u64 = 0;
        let mut i: usize = 0;
        while i < self.all_bsu.len()
            invariant
                i <= self.all_bsu@.len(),
                bs == views(self.all_bsu@),
                match largest_index(bs.subrange(0, i as int)) {
                    Some(k) => best == Some(k as usize) && 0 <= k < i && best_size == bs[k].size_bytes,
                    None => best is None && best_size == 0,
                },
            decreases self.all_bsu@.len() - i,
        {
            let ghost pre = bs.subrange(0, i as int);
            let ghost cur = bs.subrange(0, i + 1);
            assert(cur.drop_last() =~= pre);
            assert(cur.last() == bs[i as int]);
            assert(bs[i as int] == self.all_bsu@[i as int]@);
            proof {
                if let Some(k) = largest_index(pre) {
                    assert(cur[k] == bs[k]);
                }
            }
            if self.all_bsu[i].size_bytes > best_size {
                best = Some(i);
                best_size = self.all_bsu[i].size_bytes;
            }
            i = i + 1;
        }
        assert(bs.subrange(0, bs.len() as int) =~= bs);
        best
    }

    /// Index of the smallest volume.
    fn smallest_index(&self) -> (r: Option<usize>)
        ensures
            match r {
                Some(i) => smallest_index(self@.all_bsu) == Some(i as int) && i < self@.all_bsu.len(),
                None => smallest_index(self@.all_bsu) is None,
            },
    {
        let ghost bs = views(self.all_bsu@);
        let mut best: Option<usize> = None;
        let mut best_size: u64 = u64::MAX;
        let mut i: usize = 0;
        while i < self.all_bsu.len()
            invariant
                i <= self.all_bsu@.len(),
                bs == views(self.all_bsu@),
                match smallest_index(bs.subrange(0, i as int)) {
                    Some(k) => best == Some(k as usize) && 0 <= k < i && best_size == bs[k].size_bytes,
                    None => best is None && best_size == u64::MAX,
                },
            decreases self.all_bsu@.len() - i,
        {
            let ghost pre = bs.subrange(0, i as int);
            let ghost cur = bs.subrange(0, i + 1);
            assert(cur.drop_last() =~= pre);
            assert(cur.last() == bs[i as int]);
            assert(bs[i as int] == self.all_bsu@[i as int]@);
            proof {
                if let Some(k) = smallest_index(pre) {
                    assert(cur[k] == bs[k]);
                }
            }
            if self.all_bsu[i].size_bytes < best_size {
                best = Some(i);
                best_size = self.all_bsu[i].size_bytes;
            }
            i = i + 1;
        }
        assert(bs.subrange(0, bs.len() as int) =~= bs);
        best
    }

    /// The largest volume: the first of the greatest size.
    pub fn largest_bsu(&self) -> (r: Option<Bsu>)
        ensures
            match largest_index(self@.all_bsu) {
                Some(i) => r matches Some(b) && b@ == self@.all_bsu[i],
                None => r is None,
            },
    {
        match self.largest_index() {
            Some(i) => {
                let b = self.all_bsu[i].copy();
                assert(b@ == self.all_bsu@[i as int]@);
                assert(views(self.all_bsu@)[i as int] == self.all_bsu@[i as int]@);
                assert(b@ == self@.all_bsu[i as int]);
                Some(b)
            },
            None => None,
        }
    }

    /// The smallest volume: the first of the least size.
    pub fn smallest_bsu(&self) -> (r: Option<Bsu>)
        ensures
            match smallest_index(self@.all_bsu) {
                Some(i) => r matches Some(b) && b@ == self@.all_bsu[i],
                None => r is None,
            },
    {
        match self.smallest_index() {
            Some(i) => {
                let b = self.all_bsu[i].copy();
                assert(b@ == self.all_bsu@[i as int]@);
                assert(views(self.all_bsu@)[i as int] == self.all_bsu@[i as int]@);
                assert(b@ == self@.all_bsu[i as int]);
                Some(b)
            },
            None => None,
        }
    }

    /// The drive has as many volumes as it may have, or more.
    pub fn is_drive_reached_max_attached_bsu(&self) -> (r: bool)
        ensures
            r == (self@.all_bsu.len() >= self@.max_bsu_count),
    {
        self.all_bsu.len() >= self.max_bsu_count
    }

    /// The drive has exactly one volume less than it may have.
    pub fn is_drive_reached_max_attached_bsu_minus_one(&self) -> (r: bool)
        ensures
            r == (self@.all_bsu.len() + 1 == self@.max_bsu_count),
    {
        self.max_bsu_count >= 1 && self.all_bsu.len() == self.max_bsu_count - 1
    }

    /// The smallest volume is no larger than the first volume's size.
    pub fn is_drive_contains_smallest_bsu(&self) -> (r: bool)
        ensures
            r == contains_smallest(self@),
    {
        match self.smallest_index() {
            Some(i) => {
                assert(views(self.all_bsu@)[i as int] == self.all_bsu@[i as int]@);
                self.all_bsu[i].size_gib <= self.initial_size_gib
            },
            None => false,
        }
    }

    /// Used space is at or above the growth threshold.
    pub fn is_drive_low_space_left(&self, stats: &FsStats) -> (r: bool)
        ensures
            r == low_space(self@, *stats),
    {
        let perc = self.max_used_space_perc as u128;
        let size = stats.size as u128;
        assert(perc * size <= 18446744073709551615u128 * 18446744073709551615u128) by (nonlinear_arith)
            requires
                perc <= 18446744073709551615u128,
                size <= 18446744073709551615u128,
        ;
        (stats.used as u128) * 100 >= perc * size
    }

    /// Used space is at or below the shrink threshold.
    pub fn is_drive_high_space_left(&self, stats: &FsStats) -> (r: bool)
        ensures
            r == high_space(self@, *stats),
    {
        let perc = self.min_used_space_perc as u128;
        let size = stats.size as u128;
        assert(perc * size <= 18446744073709551615u128 * 18446744073709551615u128) by (nonlinear_arith)
            requires
                perc <= 18446744073709551615u128,
                size <= 18446744073709551615u128,
        ;
        (stats.used as u128) * 100 <= perc * size
    }

    /// The drive holds as much as its configured cap allows.
    pub fn is_max_space_reached(&self) -> (r: bool)
        ensures
            r == max_space_reached(self@),
    {
        match self.max_total_size_gib {
            Some(m) => self.all_bsu_size_gib() >= m as u128,
            None => false,
        }
    }

    /// The drive is as small as it may be: its volumes total the first volume's size.
    pub fn has_minimal_size(&self) -> (r: bool)
        ensures
            r == (total_gib(self@.all_bsu) == self@.initial_size_gib),
    {
        self.all_bsu_size_gib() == self.initial_size_gib as u128
    }

    /// The filesystem size, in bytes, that would put the use midway between the thresholds.
    pub fn ideal_size_bytes(&self, stats: &FsStats) -> (r: u64)
        requires
            self@.wf(),
        ensures
            r == ideal_bytes(self@, *stats),
    {
        let s: u128 = self.min_used_space_perc as u128 + self.max_used_space_perc as u128;
        let mid: u128 = ((stats.used as u128) * 200 + s - 1) / s;
        let floor: u128 = (self.initial_size_gib as u128) * 1073741824;
        let raised = if mid > floor { mid } else { floor };
        if raised < stats.size as u128 {
            raised as u64
        } else {
            stats.size
        }
    }

    /// Size in GiB of a volume one step larger than the largest.
    pub fn larger_bsu_size_gib(&self) -> (r: u64)
        requires
            self@.wf(),
        ensures
            r == larger_gib(self@),
    {
        let largest: u128 = match self.largest_index() {
            Some(i) => self.all_bsu[i].size_gib as u128,
            None => 0,
        };
        let factor: u128 = 100 + self.disk_scale_factor_perc as u128;
        // Above the cap the result is the cap either way; clamping first keeps the product small.
        let clamped: u128 = if largest > MAX_BSU_SIZE_GIB as u128 { MAX_BSU_SIZE_GIB as u128 } else { largest };
        assert(clamped * factor <= 14901 * 18446744073709551715u128) by (nonlinear_arith)
            requires
                factor <= 18446744073709551715u128,
                clamped <= 14901,
        ;
        let grown: u128 = (clamped * factor + 99) / 100;
        assert((grown < 14901) == ((largest * factor + 99) / 100 < 14901)
            && (grown < 14901 ==> grown == (largest * factor + 99) / 100)) by (nonlinear_arith)
            requires
                grown == (clamped * factor + 99) / 100,
                clamped == if largest > 14901 { 14901 } else { largest },
                factor >= 100,
        ;
        if grown < MAX_BSU_SIZE_GIB as u128 {
            grown as u64
        } else {
            MAX_BSU_SIZE_GIB
        }
    }

    /// Size in GiB of a volume one step smaller than the smallest.
    pub fn smaller_bsu_size_gib(&self) -> (r: u64)
        requires
            self@.wf(),
        ensures
            r == smaller_gib(self@),
    {
        let smallest: u128 = match self.smallest_index() {
            Some(i) => self.all_bsu[i].size_gib as u128,
            None => 0,
        };
        let factor: u128 = if self.disk_scale_factor_perc >= 100 { 0 } else { 100 - self.disk_scale_factor_perc as u128 };
        assert(smallest * factor <= 100 * 18446744073709551615u128) by (nonlinear_arith)
            requires
                factor <= 100,
                smallest <= 18446744073709551615u128,
        ;
        let shrunk: u128 = (smallest * factor + 99) / 100;
        assert(shrunk <= smallest) by (nonlinear_arith)
            requires
                shrunk == (smallest * factor + 99) / 100,
                factor <= 100,
        ;
        if shrunk > self.initial_size_gib as u128 {
            shrunk as u64
        } else {
            self.initial_size_gib
        }
    }

    /// What the growth and shrink policy asks, given the filesystem's space figures.
    pub fn plan(&self, stats: &FsStats) -> (r: Plan)
        requires
            self@.wf(),
        ensures
            r == plan(self@, *stats),
    {
        if self.is_drive_reached_max_attached_bsu() {
            Plan::RemoveSmallest
        } else if self.is_drive_low_space_left(stats) {
            if self.is_max_space_reached() {
                Plan::Bounded
            } else if !self.is_drive_reached_max_attached_bsu_minus_one() && !self.is_drive_contains_smallest_bsu() {
                Plan::Grow(self.smaller_bsu_size_gib())
            } else {
                Plan::Grow(self.larger_bsu_size_gib())
            }
        } else if self.is_drive_high_space_left(stats) {
            if self.bsu_count() > 1 {
                Plan::RemoveLargest
            } else if self.has_minimal_size() {
                Plan::Minimal
            } else {
                Plan::Grow(crate::utils::bytes_to_gib_rounded(self.ideal_size_bytes(stats)))
            }
        } else {
            Plan::Stable
        }
    }
}


// ---------------------------------------------------------------------------------
// Command lines the machine asks for.

pub open spec fn w_pvmove_all() -> Seq<Seq<char>> {
    seq!["lvm"@, "pvmove"@]
}

pub open spec fn w_pvcreate(p: Seq<char>) -> Seq<Seq<char>> {
    seq!["lvm"@, "pvcreate"@, p]
}

pub open spec fn w_vgscan() -> Seq<Seq<char>> {
    seq!["vgscan"@]
}

pub open spec fn w_vgchange(on: bool, vg: Seq<char>) -> Seq<Seq<char>> {
    seq!["vgchange"@, if on { "-ay"@ } else { "-an"@ }, vg]
}

pub open spec fn w_lvchange(on: bool, lv: Seq<char>) -> Seq<Seq<char>> {
    seq!["lvchange"@, if on { "-ay"@ } else { "-an"@ }, lv]
}

pub open spec fn w_vgcreate(vg: Seq<char>, p: Seq<char>) -> Seq<Seq<char>> {
    seq!["lvm"@, "vgcreate"@, "--alloc"@, "normal"@, vg, p]
}

pub open spec fn w_vgextend(vg: Seq<char>, p: Seq<char>) -> Seq<Seq<char>> {
    seq!["lvm"@, "vgextend"@, vg, p]
}

pub open spec fn w_lvcreate(vg: Seq<char>) -> Seq<Seq<char>> {
    seq!["lvm"@, "lvcreate"@, "--extents"@, "100%FREE"@, "-n"@, "bsud"@, vg]
}

pub open spec fn w_lvextend(lv_path: Seq<char>) -> Seq<Seq<char>> {
    seq!["lvm"@, "lvextend"@, "--extents"@, "+100%FREE"@, lv_path]
}

pub open spec fn w_mkfs(dev: Seq<char>) -> Seq<Seq<char>> {
    seq!["mkfs.btrfs"@, dev]
}

pub open spec fn w_mount(dev: Seq<char>, target: Seq<char>) -> Seq<Seq<char>> {
    seq!["mount"@, dev, target]
}

pub open spec fn w_umount(dev: Seq<char>) -> Seq<Seq<char>> {
    seq!["umount"@, dev]
}

pub open spec fn w_fs_max(target: Seq<char>) -> Seq<Seq<char>> {
    seq!["btrfs"@, "filesystem"@, "resize"@, "max"@, target]
}

pub open spec fn w_fs_resize(target: Seq<char>, n: u64) -> Seq<Seq<char>> {
    seq!["btrfs"@, "filesystem"@, "resize"@, decimal(n as nat), target]
}

pub open spec fn w_lvreduce(lv_path: Seq<char>, n: u64) -> Seq<Seq<char>> {
    seq!["lvm"@, "lvreduce"@, "--yes"@, "--size"@, decimal(n as nat) + "B"@, lv_path]
}

pub open spec fn w_pvmove(p: Seq<char>) -> Seq<Seq<char>> {
    seq!["lvm"@, "pvmove"@, p]
}

pub open spec fn w_vgreduce(vg: Seq<char>, p: Seq<char>) -> Seq<Seq<char>> {
    seq!["lvm"@, "vgreduce"@, vg, p]
}

pub open spec fn w_pvremove(p: Seq<char>) -> Seq<Seq<char>> {
    seq!["lvm"@, "pvremove"@, p]
}

// ---------------------------------------------------------------------------------
// The machine.

/// Moves to phase `p` and asks for `a`.
pub open spec fn go(d: DriveView, p: Phase, a: ActionView) -> (DriveView, ActionView) {
    (DriveView { phase: p, ..d }, a)
}

/// Ends the reconcile with success.
pub open spec fn finish(d: DriveView) -> (DriveView, ActionView) {
    (DriveView { phase: Phase::Idle, victim: None, ..d }, ActionView::Finish)
}

/// Ends the reconcile with the error `e`.
pub open spec fn fail(d: DriveView, e: DriveError) -> (DriveView, ActionView) {
    (DriveView { phase: Phase::Idle, victim: None, ..d }, ActionView::Fail(e))
}

/// The first step of a reconcile, by target: online starts by resuming any
/// interrupted extent move; offline and delete start from the mount state.
pub open spec fn start(d: DriveView) -> (DriveView, ActionView) {
    match d.target {
        DriveTarget::Online => go(d, Phase::Resume, ActionView::RunLenient(w_pvmove_all())),
        _ => go(d, Phase::OffMount, ActionView::ReadMount(lv_path_of(d.name))),
    }
}

/// The online steps that deal with the cloud: list, attach, create the first volume.
pub open spec fn next_cloud(d: DriveView, ev: EventView) -> (DriveView, ActionView) {
    match (d.phase, ev) {
        (Phase::Resume, EventView::Done) => go(d, Phase::Volumes, ActionView::ListVolumes),
        (Phase::Volumes, EventView::Volumes(bs)) => go(
            DriveView { all_bsu: bs, ..d },
            Phase::Presence,
            ActionView::ProbeDevices(device_paths(bs)),
        ),
        (Phase::Presence, EventView::Present(p)) => if p.len() != d.all_bsu.len() {
            fail(d, DriveError::UnexpectedEvent)
        } else if all_attached(d.all_bsu, d.vm_id, p) {
            if d.all_bsu.len() == 0 {
                go(d, Phase::Created, ActionView::Create(
                    request_of(d.name, d.disk_type, d.disk_iops_per_gib, d.initial_size_gib),
                ))
            } else {
                go(d, Phase::PvReport, ActionView::ReadLvm)
            }
        } else {
            let missing = select(d.all_bsu, |b: BsuView| !is_attached_to(b, d.vm_id));
            if missing.len() == 0 {
                go(d, Phase::Volumes, ActionView::ListVolumes)
            } else {
                go(d, Phase::Attached, ActionView::Attach(missing))
            }
        },
        (Phase::Attached, EventView::Done) => go(d, Phase::Volumes, ActionView::ListVolumes),
        (Phase::Created, EventView::Done) => go(d, Phase::Resume, ActionView::RunLenient(w_pvmove_all())),
        _ => fail(d, DriveError::UnexpectedEvent),
    }
}

/// Whether the logical volume exists, once the volume group is there.
pub open spec fn lv_check(d: DriveView, r: Seq<Lvm>) -> (DriveView, ActionView) {
    match report_for(r, d.name) {
        None => fail(d, DriveError::LvmNotFound),
        Some(l) => if l.lv@.len() == 0 {
            go(d, Phase::LvCreated, ActionView::Run(seq![w_lvcreate(d.name)]))
        } else {
            go(d, Phase::LvActivated, ActionView::TryRun(w_lvchange(true, d.name)))
        },
    }
}

/// Compares the volume group and logical volume sizes: extend when the group is larger,
/// take the step `fits` when they match.
pub open spec fn lv_fit(
    d: DriveView,
    r: Seq<Lvm>,
    grown: Phase,
    fits: (DriveView, ActionView),
    extend: Seq<Seq<Seq<char>>>,
) -> (DriveView, ActionView) {
    match (vg_size_of(r, d.name), lv_size_of(r, d.name)) {
        (Err(e), _) => fail(d, DriveError::Lvm(e)),
        (_, Err(e)) => fail(d, DriveError::Lvm(e)),
        (Ok(vg), Ok(lv)) => if vg > lv {
            go(d, grown, ActionView::Run(extend))
        } else if vg == lv {
            fits
        } else {
            fail(d, DriveError::VgSmallerThanLv)
        },
    }
}

/// The online steps on LVM: physical volumes, volume group, logical volume.
pub open spec fn next_lvm(d: DriveView, ev: EventView) -> (DriveView, ActionView) {
    let lvp = lv_path_of(d.name);
    match (d.phase, ev) {
        (Phase::PvReport, EventView::Report(r)) => {
            let m = missing_pvs(d.all_bsu, r, d.name);
            if m.len() == 0 {
                go(d, Phase::VgScan, ActionView::TryRun(w_vgscan()))
            } else {
                go(d, Phase::PvInit, ActionView::Run(m.map_values(|p: Seq<char>| w_pvcreate(p))))
            }
        },
        (Phase::PvInit, EventView::Done) => go(d, Phase::PvReport, ActionView::ReadLvm),
        (Phase::VgScan, EventView::Done) => go(d, Phase::VgReport, ActionView::ReadLvm),
        (Phase::VgReport, EventView::Report(r)) => if report_for(r, d.name) is Some {
            go(d, Phase::VgActivated, ActionView::TryRun(w_vgchange(true, d.name)))
        } else {
            let u = unassigned_pvs(d.all_bsu, r);
            if u.len() == 0 {
                fail(d, DriveError::NoFreePv)
            } else {
                go(d, Phase::VgCreated, ActionView::Run(seq![w_vgcreate(d.name, u[0])]))
            }
        },
        (Phase::VgCreated, EventView::Done) => go(d, Phase::VgReport, ActionView::ReadLvm),
        (Phase::VgActivated, EventView::Done) => go(d, Phase::ExtendReport, ActionView::ReadLvm),
        (Phase::ExtendReport, EventView::Report(r)) => {
            let u = unassigned_pvs(d.all_bsu, r);
            if u.len() == 0 {
                lv_check(d, r)
            } else {
                go(d, Phase::VgExtended, ActionView::Run(u.map_values(|p: Seq<char>| w_vgextend(d.name, p))))
            }
        },
        (Phase::VgExtended, EventView::Done) => go(d, Phase::ExtendReport, ActionView::ReadLvm),
        (Phase::LvReport, EventView::Report(r)) => lv_check(d, r),
        (Phase::LvCreated, EventView::Done) => go(d, Phase::LvReport, ActionView::ReadLvm),
        (Phase::LvActivated, EventView::Done) => go(d, Phase::SizesReport, ActionView::ReadLvm),
        (Phase::SizesReport, EventView::Report(r)) => lv_fit(
            d,
            r,
            Phase::LvExtended,
            go(d, Phase::Head, ActionView::ReadHead(lvp)),
            seq![w_lvextend(lvp)],
        ),
        (Phase::LvExtended, EventView::Done) => go(d, Phase::SizesReport, ActionView::ReadLvm),
        _ => fail(d, DriveError::UnexpectedEvent),
    }
}

/// Starts removing the volume `v`: shrink the filesystem and the logical volume to
/// the smaller of what is left without `v` and the ideal size.
pub open spec fn shrink_start(d: DriveView, v: BsuView, st: FsStats) -> (DriveView, ActionView) {
    if st.available < v.size_bytes || st.size < v.size_bytes {
        fail(d, DriveError::NotEnoughSpace)
    } else {
        match v.device_path {
            None => fail(d, DriveError::NoDevicePath),
            Some(_) => {
                let left = (st.size - v.size_bytes) as u64;
                let ideal = ideal_bytes(d, st);
                let n = if left < ideal { left } else { ideal };
                go(
                    DriveView { victim: Some(v), ..d },
                    Phase::ShrinkResized,
                    ActionView::Run(seq![w_fs_resize(d.mount_path, n), w_lvreduce(lv_path_of(d.name), n)]),
                )
            },
        }
    }
}

/// The growth and shrink policy, once the drive is mounted and consistent.
pub open spec fn policy_step(d: DriveView, st: FsStats) -> (DriveView, ActionView) {
    match plan(d, st) {
        Plan::RemoveSmallest => match smallest_index(d.all_bsu) {
            Some(i) => shrink_start(d, d.all_bsu[i], st),
            None => fail(d, DriveError::NoVolume),
        },
        Plan::RemoveLargest => match largest_index(d.all_bsu) {
            Some(i) => shrink_start(d, d.all_bsu[i], st),
            None => fail(d, DriveError::NoVolume),
        },
        Plan::Grow(n) => go(d, Phase::Created, ActionView::Create(
            request_of(d.name, d.disk_type, d.disk_iops_per_gib, n),
        )),
        _ => finish(d),
    }
}

/// The online steps on the filesystem, then the policy.
pub open spec fn next_fs(d: DriveView, ev: EventView) -> (DriveView, ActionView) {
    let lvp = lv_path_of(d.name);
    match (d.phase, ev) {
        (Phase::Head, EventView::Head(h)) => if seems_formatted(h) {
            go(d, Phase::Folder, ActionView::IsFolder(d.mount_path))
        } else {
            go(d, Phase::Formatted, ActionView::Run(seq![w_mkfs(lvp)]))
        },
        (Phase::Formatted, EventView::Done) => go(d, Phase::Head, ActionView::ReadHead(lvp)),
        (Phase::Folder, EventView::Folder(f)) => if f {
            go(d, Phase::Mount, ActionView::ReadMount(lvp))
        } else {
            go(d, Phase::FolderCreated, ActionView::CreateFolder(d.mount_path))
        },
        (Phase::FolderCreated, EventView::Done) => go(d, Phase::Folder, ActionView::IsFolder(d.mount_path)),
        (Phase::Mount, EventView::Mount(m)) => match m {
            None => go(d, Phase::Mounted, ActionView::Run(seq![w_mount(lvp, d.mount_path)])),
            Some(dest) => if dest == d.mount_path {
                go(d, Phase::Usage, ActionView::ReadUsage(lvp))
            } else {
                fail(d, DriveError::Fs(FsError::MountedElsewhere))
            },
        },
        (Phase::Mounted, EventView::Done) => go(d, Phase::Mount, ActionView::ReadMount(lvp)),
        (Phase::Usage, EventView::Usage(r, stats)) => match (lv_size_of(r, d.name), stats) {
            (Err(e), _) => fail(d, DriveError::Lvm(e)),
            (_, None) => fail(d, DriveError::NoStats),
            (Ok(lv), Some(st)) => if st.size < lv {
                go(d, Phase::FsExtended, ActionView::Run(seq![w_fs_max(d.mount_path)]))
            } else if st.size > lv {
                fail(d, DriveError::FsLargerThanLv)
            } else if d.all_bsu.len() == 0 {
                fail(d, DriveError::NoVolume)
            } else {
                policy_step(d, st)
            },
        },
        (Phase::FsExtended, EventView::Done) => go(d, Phase::Usage, ActionView::ReadUsage(lvp)),
        _ => fail(d, DriveError::UnexpectedEvent),
    }
}

/// The removal of the volume held in `d.victim`, after the first shrink.
pub open spec fn next_shrink(d: DriveView, ev: EventView) -> (DriveView, ActionView) {
    let lvp = lv_path_of(d.name);
    match (d.victim, ev) {
        (Some(v), EventView::Done) if v.device_path is Some => {
            let dev = v.device_path.unwrap();
            match d.phase {
                Phase::ShrinkResized => go(d, Phase::ShrinkMoved, ActionView::RunLenient(w_pvmove(dev))),
                Phase::ShrinkMoved => go(
                    d,
                    Phase::ShrinkReduced,
                    ActionView::Run(seq![w_vgreduce(d.name, dev), w_pvremove(dev)]),
                ),
                Phase::ShrinkReduced => go(d, Phase::RegrowReport, ActionView::ReadLvm),
                Phase::Regrown => go(d, Phase::VictimDetached, ActionView::Detach(seq![v])),
                Phase::VictimDetached => go(d, Phase::VictimDeleted, ActionView::Delete(seq![v])),
                Phase::VictimDeleted => go(
                    DriveView { victim: None, ..d },
                    Phase::Resume,
                    ActionView::RunLenient(w_pvmove_all()),
                ),
                _ => fail(d, DriveError::UnexpectedEvent),
            }
        },
        (Some(v), EventView::Report(r)) if v.device_path is Some && d.phase == Phase::RegrowReport => lv_fit(
            d,
            r,
            Phase::Regrown,
            go(d, Phase::Regrown, ActionView::Run(seq![w_fs_max(d.mount_path)])),
            seq![w_lvextend(lvp), w_fs_max(d.mount_path)],
        ),
        _ => fail(d, DriveError::UnexpectedEvent),
    }
}

/// The volumes of `bs` attached to the machine `vm`.
pub open spec fn attached_here_of(bs: Seq<BsuView>, vm: Seq<char>) -> Seq<BsuView> {
    select(bs, |b: BsuView| is_attached_to(b, vm))
}

/// After a listing `bs`: detach the volumes attached to this machine, if any; else
/// rescan the volume groups.
pub open spec fn off_check(d: DriveView, bs: Seq<BsuView>) -> (DriveView, ActionView) {
    let here = attached_here_of(bs, d.vm_id);
    if here.len() > 0 {
        go(DriveView { all_bsu: bs, ..d }, Phase::OffDetached, ActionView::Detach(here))
    } else {
        go(DriveView { all_bsu: bs, ..d }, Phase::OffScan, ActionView::TryRun(w_vgscan()))
    }
}

/// The offline steps, and the deletion that follows them for a drive to delete.
pub open spec fn next_offline(d: DriveView, ev: EventView) -> (DriveView, ActionView) {
    let lvp = lv_path_of(d.name);
    match (d.phase, ev) {
        (Phase::OffMount, EventView::Mount(m)) => match m {
            None => go(d, Phase::LvOff, ActionView::TryRun(w_lvchange(false, d.name))),
            Some(dest) => if dest == d.mount_path {
                go(d, Phase::Unmounted, ActionView::Run(seq![w_umount(lvp)]))
            } else {
                fail(d, DriveError::Fs(FsError::MountedElsewhere))
            },
        },
        (Phase::Unmounted, EventView::Done) => go(d, Phase::OffMount, ActionView::ReadMount(lvp)),
        (Phase::LvOff, EventView::Done) => go(d, Phase::VgOff, ActionView::TryRun(w_vgchange(false, d.name))),
        (Phase::VgOff, EventView::Done) => go(d, Phase::OffVolumes, ActionView::ListVolumes),
        (Phase::OffVolumes, EventView::Volumes(bs)) => if bs.len() == 0 {
            finish(DriveView { all_bsu: bs, ..d })
        } else {
            off_check(d, bs)
        },
        (Phase::OffDetached, EventView::Done) => go(d, Phase::OffRefetch, ActionView::ListVolumes),
        (Phase::OffRefetch, EventView::Volumes(bs)) => off_check(d, bs),
        (Phase::OffScan, EventView::Done) => if d.target == DriveTarget::Delete {
            go(d, Phase::Deleted, ActionView::Delete(d.all_bsu))
        } else {
            finish(d)
        },
        (Phase::Deleted, EventView::Done) => finish(d),
        _ => fail(d, DriveError::UnexpectedEvent),
    }
}

pub open spec fn is_cloud_phase(p: Phase) -> bool {
    p == Phase::Resume || p == Phase::Volumes || p == Phase::Presence || p == Phase::Attached
        || p == Phase::Created
}

pub open spec fn is_lvm_phase(p: Phase) -> bool {
    p == Phase::PvReport || p == Phase::PvInit || p == Phase::VgScan || p == Phase::VgReport
        || p == Phase::VgCreated || p == Phase::VgActivated || p == Phase::ExtendReport
        || p == Phase::VgExtended || p == Phase::LvReport || p == Phase::LvCreated
        || p == Phase::LvActivated || p == Phase::SizesReport || p == Phase::LvExtended
}

pub open spec fn is_fs_phase(p: Phase) -> bool {
    p == Phase::Head || p == Phase::Formatted || p == Phase::Folder || p == Phase::FolderCreated
        || p == Phase::Mount || p == Phase::Mounted || p == Phase::Usage || p == Phase::FsExtended
}

pub open spec fn is_shrink_phase(p: Phase) -> bool {
    p == Phase::ShrinkResized || p == Phase::ShrinkMoved || p == Phase::ShrinkReduced
        || p == Phase::RegrowReport || p == Phase::Regrown || p == Phase::VictimDetached
        || p == Phase::VictimDeleted
}

/// One step of the reconcile: from where it stands and what came of the last action,
/// where it goes and what to do next.
pub open spec fn next(d: DriveView, ev: EventView) -> (DriveView, ActionView) {
    if is_cloud_phase(d.phase) {
        next_cloud(d, ev)
    } else if is_lvm_phase(d.phase) {
        next_lvm(d, ev)
    } else if is_fs_phase(d.phase) {
        next_fs(d, ev)
    } else if is_shrink_phase(d.phase) {
        next_shrink(d, ev)
    } else if d.phase == Phase::Idle {
        fail(d, DriveError::UnexpectedEvent)
    } else {
        next_offline(d, ev)
    }
}


/// A list of one command.
fn one(c: CommandLine) -> (r: Vec<CommandLine>)
    ensures
        words_of(r@) == seq![c.words()],
{
    let mut r: Vec<CommandLine> = Vec::new();
    r.push(c);
    assert(words_of(r@) =~= seq![c.words()]);
    r
}

/// A list of two commands.
fn two(a: CommandLine, b: CommandLine) -> (r: Vec<CommandLine>)
    ensures
        words_of(r@) == seq![a.words(), b.words()],
{
    let mut r: Vec<CommandLine> = Vec::new();
    r.push(a);
    r.push(b);
    assert(words_of(r@) =~= seq![a.words(), b.words()]);
    r
}

/// A list of one volume.
fn one_bsu(b: Bsu) -> (r: Vec<Bsu>)
    ensures
        views(r@) == seq![b@],
{
    let mut r: Vec<Bsu> = Vec::new();
    r.push(b);
    assert(views(r@) =~= seq![b@]);
    r
}

/// Copies of the volumes.
fn copies(bs: &Vec<Bsu>) -> (r: Vec<Bsu>)
    ensures
        views(r@) == views(bs@),
{
    let mut r: Vec<Bsu> = Vec::new();
    let mut i: usize = 0;
    while i < bs.len()
        invariant
            i <= bs@.len(),
            r@.len() == i,
            forall|j: int| 0 <= j < i ==> #[trigger] r@[j]@ == bs@[j]@,
        decreases bs@.len() - i,
    {
        r.push(bs[i].copy());
        i = i + 1;
    }
    assert(views(r@) =~= views(bs@));
    r
}

/// The device path of each volume (empty when there is none).
fn device_paths_of(bs: &Vec<Bsu>) -> (r: Vec<String>)
    ensures
        strs_of(r@) == device_paths(views(bs@)),
{
    let mut r: Vec<String> = Vec::new();
    let mut i: usize = 0;
    while i < bs.len()
        invariant
            i <= bs@.len(),
            r@.len() == i,
            forall|j: int| 0 <= j < i ==> #[trigger] r@[j]@ == device_paths(views(bs@))[j],
        decreases bs@.len() - i,
    {
        let p = match &bs[i].device_path {
            Some(p) => p.clone(),
            None => String::new(),
        };
        r.push(p);
        i = i + 1;
    }
    assert(strs_of(r@) =~= device_paths(views(bs@)));
    r
}

/// `pvcreate` for each path.
fn pvcreate_all(paths: &Vec<String>) -> (r: Vec<CommandLine>)
    ensures
        words_of(r@) == strs_of(paths@).map_values(|p: Seq<char>| w_pvcreate(p)),
{
    let mut r: Vec<CommandLine> = Vec::new();
    let mut i: usize = 0;
    while i < paths.len()
        invariant
            i <= paths@.len(),
            r@.len() == i,
            forall|j: int| 0 <= j < i ==> (#[trigger] r@[j]).words() == w_pvcreate(paths@[j]@),
        decreases paths@.len() - i,
    {
        r.push(crate::lvm::init_pv(&paths[i]));
        i = i + 1;
    }
    assert(words_of(r@) =~= strs_of(paths@).map_values(|p: Seq<char>| w_pvcreate(p)));
    r
}

/// `vgextend` of the group `vg` for each path.
fn vgextend_all(vg: &String, paths: &Vec<String>) -> (r: Vec<CommandLine>)
    ensures
        words_of(r@) == strs_of(paths@).map_values(|p: Seq<char>| w_vgextend(vg@, p)),
{
    let mut r: Vec<CommandLine> = Vec::new();
    let mut i: usize = 0;
    while i < paths.len()
        invariant
            i <= paths@.len(),
            r@.len() == i,
            forall|j: int| 0 <= j < i ==> (#[trigger] r@[j]).words() == w_vgextend(vg@, paths@[j]@),
        decreases paths@.len() - i,
    {
        r.push(crate::lvm::extend_vg(vg, &paths[i]));
        i = i + 1;
    }
    assert(words_of(r@) =~= strs_of(paths@).map_values(|p: Seq<char>| w_vgextend(vg@, p)));
    r
}

impl Drive {
    /// Whether every volume is attached to this machine with its device there, given
    /// for each volume (in order) whether its device path exists.
    pub fn are_bsu_attached(&self, present: &Vec<bool>) -> (r: bool)
        requires
            present@.len() == self@.all_bsu.len(),
        ensures
            r == all_attached(self@.all_bsu, self@.vm_id, present@),
    {
        let mut i: usize = 0;
        while i < self.all_bsu.len()
            invariant
                i <= self.all_bsu@.len(),
                present@.len() == self.all_bsu@.len(),
                forall|j: int| 0 <= j < i ==> attached_here(self@.all_bsu[j], self@.vm_id, #[trigger] present@[j]),
            decreases self.all_bsu@.len() - i,
        {
            assert(self@.all_bsu[i as int] == self.all_bsu@[i as int]@);
            let b = &self.all_bsu[i];
            let here = match &b.vm_id {
                Some(v) => *v == self.vm_id,
                None => false,
            };
            if !(here && b.device_path.is_some() && present[i]) {
                assert(!attached_here(self@.all_bsu[i as int], self@.vm_id, present@[i as int]));
                return false;
            }
            i = i + 1;
        }
        true
    }

    /// The devices of the volumes that LVM does not know as physical volumes yet.
    pub fn pvs_to_initialize(&self, reports: &Vec<Lvm>) -> (r: Vec<String>)
        ensures
            strs_of(r@) == missing_pvs(self@.all_bsu, reports@, self@.name),
    {
        let ghost bs = self@.all_bsu;
        let mut out: Vec<String> = Vec::new();
        let mut i: usize = 0;
        assert(bs.subrange(0, 0) =~= Seq::<BsuView>::empty());
        assert(strs_of(out@) =~= Seq::<Seq<char>>::empty());
        while i < self.all_bsu.len()
            invariant
                i <= self.all_bsu@.len(),
                bs == self@.all_bsu,
                strs_of(out@) == missing_pvs(bs.subrange(0, i as int), reports@, self@.name),
            decreases self.all_bsu@.len() - i,
        {
            let ghost cur = bs.subrange(0, i + 1);
            assert(cur.drop_last() =~= bs.subrange(0, i as int));
            assert(cur.last() == self.all_bsu@[i as int]@);
            if let Some(p) = &self.all_bsu[i].device_path {
                if !is_unassigned_pv(reports, p) && !is_pv_of(reports, &self.name, p) {
                    out.push(p.clone());
                    assert(strs_of(out@) =~= missing_pvs(cur, reports@, self@.name));
                }
            }
            i = i + 1;
        }
        assert(bs.subrange(0, bs.len() as int) =~= bs);
        out
    }

    /// The devices of the volumes that are physical volumes of no volume group.
    pub fn pvs_to_add_to_vg(&self, reports: &Vec<Lvm>) -> (r: Vec<String>)
        ensures
            strs_of(r@) == unassigned_pvs(self@.all_bsu, reports@),
    {
        let ghost bs = self@.all_bsu;
        let mut out: Vec<String> = Vec::new();
        let mut i: usize = 0;
        assert(bs.subrange(0, 0) =~= Seq::<BsuView>::empty());
        assert(strs_of(out@) =~= Seq::<Seq<char>>::empty());
        while i < self.all_bsu.len()
            invariant
                i <= self.all_bsu@.len(),
                bs == self@.all_bsu,
                strs_of(out@) == unassigned_pvs(bs.subrange(0, i as int), reports@),
            decreases self.all_bsu@.len() - i,
        {
            let ghost cur = bs.subrange(0, i + 1);
            assert(cur.drop_last() =~= bs.subrange(0, i as int));
            assert(cur.last() == self.all_bsu@[i as int]@);
            if let Some(p) = &self.all_bsu[i].device_path {
                if is_unassigned_pv(reports, p) {
                    out.push(p.clone());
                    assert(strs_of(out@) =~= unassigned_pvs(cur, reports@));
                }
            }
            i = i + 1;
        }
        assert(bs.subrange(0, bs.len() as int) =~= bs);
        out
    }

    /// The request for a volume of `size_gib` GiB for this drive.
    pub fn create_bsu(&self, size_gib: u64) -> (r: VolumeRequest)
        ensures
            r@ == request_of(self@.name, self@.disk_type, self@.disk_iops_per_gib, size_gib),
    {
        Bsu::create_gib(&self.name, self.disk_type, self.disk_iops_per_gib, size_gib)
    }

    /// The request for the drive's first volume.
    pub fn create_initial_bsu(&self) -> (r: VolumeRequest)
        ensures
            r@ == request_of(self@.name, self@.disk_type, self@.disk_iops_per_gib, self@.initial_size_gib),
    {
        self.create_bsu(self.initial_size_gib)
    }
}


impl Drive {
    /// Moves to phase `p` and hands `a` back.
    fn to(&mut self, p: Phase, a: Action) -> (r: Action)
        ensures
            final(self)@ == (DriveView { phase: p, ..old(self)@ }),
            r == a,
    {
        self.phase = p;
        a
    }

    /// Ends the reconcile with the error `e`.
    fn fail_with(&mut self, e: DriveError) -> (r: Action)
        ensures
            (final(self)@, r@) == fail(old(self)@, e),
    {
        self.phase = Phase::Idle;
        self.victim = None;
        Action::Fail(e)
    }

    /// Ends the reconcile with success.
    fn finish_now(&mut self) -> (r: Action)
        ensures
            (final(self)@, r@) == finish(old(self)@),
    {
        self.phase = Phase::Idle;
        self.victim = None;
        Action::Finish
    }

    /// Compares the sizes of the volume group and its logical volume in `reports`:
    /// extend when the group is larger, go on to `fits_phase` when they match.
    fn lv_fit_step(
        &mut self,
        reports: &Vec<Lvm>,
        grown: Phase,
        fits_phase: Phase,
        fits_action: Action,
        extend: Vec<CommandLine>,
    ) -> (r: Action)
        ensures
            (final(self)@, r@) == lv_fit(
                old(self)@,
                reports@,
                grown,
                go(old(self)@, fits_phase, fits_action@),
                words_of(extend@),
            ),
    {
        let vg = crate::lvm::get_vg_size_bytes(reports, &self.name);
        let lv = crate::lvm::get_lv_size_bytes(reports, &self.name);
        match (vg, lv) {
            (Err(e), _) => self.fail_with(DriveError::Lvm(e)),
            (_, Err(e)) => self.fail_with(DriveError::Lvm(e)),
            (Ok(vg), Ok(lv)) => if vg > lv {
                self.to(grown, Action::Run(extend))
            } else if vg == lv {
                self.to(fits_phase, fits_action)
            } else {
                self.fail_with(DriveError::VgSmallerThanLv)
            },
        }
    }

    /// Whether the logical volume exists, once the volume group does.
    fn lv_check_step(&mut self, reports: &Vec<Lvm>) -> (r: Action)
        ensures
            (final(self)@, r@) == lv_check(old(self)@, reports@),
    {
        let has_lv = match crate::lvm::get_report(reports, &self.name) {
            None => None,
            Some(l) => Some(l.lv.len() > 0),
        };
        match has_lv {
            None => self.fail_with(DriveError::LvmNotFound),
            Some(false) => {
                let c = crate::lvm::create_lv(&self.name);
                self.to(Phase::LvCreated, Action::Run(one(c)))
            },
            Some(true) => {
                let c = crate::lvm::lv_activate(true, &self.name);
                self.to(Phase::LvActivated, Action::TryRun(c))
            },
        }
    }

    fn step_cloud(&mut self, ev: Event) -> (r: Action)
        requires
            is_cloud_phase(old(self)@.phase),
        ensures
            (final(self)@, r@) == next_cloud(old(self)@, ev@),
    {
        match (self.phase, ev) {
            (Phase::Resume, Event::Done) => self.to(Phase::Volumes, Action::ListVolumes),
            (Phase::Volumes, Event::Volumes(bs)) => {
                let paths = device_paths_of(&bs);
                self.all_bsu = bs;
                self.to(Phase::Presence, Action::ProbeDevices(paths))
            },
            (Phase::Presence, Event::Present(p)) => {
                if p.len() != self.all_bsu.len() {
                    return self.fail_with(DriveError::UnexpectedEvent);
                }
                if self.are_bsu_attached(&p) {
                    if self.all_bsu.len() == 0 {
                        let req = self.create_initial_bsu();
                        self.to(Phase::Created, Action::Create(req))
                    } else {
                        self.to(Phase::PvReport, Action::ReadLvm)
                    }
                } else {
                    let missing = Bsu::not_attached_to(&self.vm_id, &self.all_bsu);
                    if missing.len() == 0 {
                        self.to(Phase::Volumes, Action::ListVolumes)
                    } else {
                        self.to(Phase::Attached, Action::Attach(missing))
                    }
                }
            },
            (Phase::Attached, Event::Done) => self.to(Phase::Volumes, Action::ListVolumes),
            (Phase::Created, Event::Done) => {
                let c = crate::lvm::pv_move_no_arg();
                self.to(Phase::Resume, Action::RunLenient(c))
            },
            _ => self.fail_with(DriveError::UnexpectedEvent),
        }
    }

    fn step_lvm(&mut self, ev: Event) -> (r: Action)
        requires
            is_lvm_phase(old(self)@.phase),
        ensures
            (final(self)@, r@) == next_lvm(old(self)@, ev@),
    {
        match (self.phase, ev) {
            (Phase::PvReport, Event::Report(r)) => {
                let m = self.pvs_to_initialize(&r);
                if m.len() == 0 {
                    self.to(Phase::VgScan, Action::TryRun(crate::lvm::vg_scan()))
                } else {
                    let cmds = pvcreate_all(&m);
                    assert(words_of(cmds@) == missing_pvs(self@.all_bsu, r@, self@.name).map_values(|p: Seq<char>| w_pvcreate(p)));
                    self.to(Phase::PvInit, Action::Run(cmds))
                }
            },
            (Phase::PvInit, Event::Done) => self.to(Phase::PvReport, Action::ReadLvm),
            (Phase::VgScan, Event::Done) => self.to(Phase::VgReport, Action::ReadLvm),
            (Phase::VgReport, Event::Report(r)) => {
                if crate::lvm::get_report(&r, &self.name).is_some() {
                    let c = crate::lvm::vg_activate(true, &self.name);
                    self.to(Phase::VgActivated, Action::TryRun(c))
                } else {
                    let u = self.pvs_to_add_to_vg(&r);
                    if u.len() == 0 {
                        self.fail_with(DriveError::NoFreePv)
                    } else {
                        assert(u@[0]@ == unassigned_pvs(self@.all_bsu, r@)[0]);
                        let c = crate::lvm::vg_create(&self.name, &u[0]);
                        self.to(Phase::VgCreated, Action::Run(one(c)))
                    }
                }
            },
            (Phase::VgCreated, Event::Done) => self.to(Phase::VgReport, Action::ReadLvm),
            (Phase::VgActivated, Event::Done) => self.to(Phase::ExtendReport, Action::ReadLvm),
            (Phase::ExtendReport, Event::Report(r)) => {
                let u = self.pvs_to_add_to_vg(&r);
                if u.len() == 0 {
                    self.lv_check_step(&r)
                } else {
                    let cmds = vgextend_all(&self.name, &u);
                    self.to(Phase::VgExtended, Action::Run(cmds))
                }
            },
            (Phase::VgExtended, Event::Done) => self.to(Phase::ExtendReport, Action::ReadLvm),
            (Phase::LvReport, Event::Report(r)) => self.lv_check_step(&r),
            (Phase::LvCreated, Event::Done) => self.to(Phase::LvReport, Action::ReadLvm),
            (Phase::LvActivated, Event::Done) => self.to(Phase::SizesReport, Action::ReadLvm),
            (Phase::SizesReport, Event::Report(r)) => {
                let lvp = crate::lvm::lv_path(self.name.as_str());
                let ext = one(crate::lvm::lv_extend_full(&lvp));
                self.lv_fit_step(&r, Phase::LvExtended, Phase::Head, Action::ReadHead(lvp), ext)
            },
            (Phase::LvExtended, Event::Done) => self.to(Phase::SizesReport, Action::ReadLvm),
            _ => self.fail_with(DriveError::UnexpectedEvent),
        }
    }

    /// Starts removing the volume `v`.
    fn shrink_start_step(&mut self, v: Bsu, st: &FsStats) -> (r: Action)
        requires
            old(self)@.wf(),
        ensures
            (final(self)@, r@) == shrink_start(old(self)@, v@, *st),
    {
        if st.available < v.size_bytes || st.size < v.size_bytes {
            return self.fail_with(DriveError::NotEnoughSpace);
        }
        if v.device_path.is_none() {
            return self.fail_with(DriveError::NoDevicePath);
        }
        let left = st.size - v.size_bytes;
        let ideal = self.ideal_size_bytes(st);
        let n = if left < ideal { left } else { ideal };
        let lvp = crate::lvm::lv_path(self.name.as_str());
        let cmds = two(crate::fs::resize(&self.mount_path, n), crate::lvm::lv_reduce(&lvp, n));
        self.victim = Some(v);
        self.to(Phase::ShrinkResized, Action::Run(cmds))
    }

    /// The growth and shrink policy.
    fn policy_step_exec(&mut self, st: &FsStats) -> (r: Action)
        requires
            old(self)@.wf(),
        ensures
            (final(self)@, r@) == policy_step(old(self)@, *st),
    {
        match self.plan(st) {
            Plan::RemoveSmallest => match self.smallest_bsu() {
                Some(v) => self.shrink_start_step(v, st),
                None => self.fail_with(DriveError::NoVolume),
            },
            Plan::RemoveLargest => match self.largest_bsu() {
                Some(v) => self.shrink_start_step(v, st),
                None => self.fail_with(DriveError::NoVolume),
            },
            Plan::Grow(n) => {
                let req = self.create_bsu(n);
                self.to(Phase::Created, Action::Create(req))
            },
            _ => self.finish_now(),
        }
    }

    fn step_fs(&mut self, ev: Event) -> (r: Action)
        requires
            is_fs_phase(old(self)@.phase),
            old(self)@.wf(),
        ensures
            (final(self)@, r@) == next_fs(old(self)@, ev@),
    {
        let lvp = crate::lvm::lv_path(self.name.as_str());
        match (self.phase, ev) {
            (Phase::Head, Event::Head(h)) => if crate::fs::device_seems_formated(h.as_slice()) {
                let m = self.mount_path.clone();
                self.to(Phase::Folder, Action::IsFolder(m))
            } else {
                self.to(Phase::Formatted, Action::Run(one(crate::fs::format(&lvp))))
            },
            (Phase::Formatted, Event::Done) => self.to(Phase::Head, Action::ReadHead(lvp)),
            (Phase::Folder, Event::Folder(f)) => if f {
                self.to(Phase::Mount, Action::ReadMount(lvp))
            } else {
                let m = self.mount_path.clone();
                self.to(Phase::FolderCreated, Action::CreateFolder(m))
            },
            (Phase::FolderCreated, Event::Done) => {
                let m = self.mount_path.clone();
                self.to(Phase::Folder, Action::IsFolder(m))
            },
            (Phase::Mount, Event::Mount(m)) => match crate::fs::is_mounted(&m, &self.mount_path) {
                Ok(false) => {
                    let c = crate::fs::mount(&lvp, &self.mount_path);
                    self.to(Phase::Mounted, Action::Run(one(c)))
                },
                Ok(true) => self.to(Phase::Usage, Action::ReadUsage(lvp)),
                Err(e) => self.fail_with(DriveError::Fs(e)),
            },
            (Phase::Mounted, Event::Done) => self.to(Phase::Mount, Action::ReadMount(lvp)),
            (Phase::Usage, Event::Usage(r, stats)) => {
                match (crate::lvm::get_lv_size_bytes(&r, &self.name), stats) {
                    (Err(e), _) => self.fail_with(DriveError::Lvm(e)),
                    (_, None) => self.fail_with(DriveError::NoStats),
                    (Ok(lv), Some(st)) => if st.size < lv {
                        let c = crate::fs::extend_fs_max(&self.mount_path);
                        self.to(Phase::FsExtended, Action::Run(one(c)))
                    } else if st.size > lv {
                        self.fail_with(DriveError::FsLargerThanLv)
                    } else if self.all_bsu.len() == 0 {
                        self.fail_with(DriveError::NoVolume)
                    } else {
                        self.policy_step_exec(&st)
                    },
                }
            },
            (Phase::FsExtended, Event::Done) => self.to(Phase::Usage, Action::ReadUsage(lvp)),
            _ => self.fail_with(DriveError::UnexpectedEvent),
        }
    }

    fn step_shrink(&mut self, ev: Event) -> (r: Action)
        requires
            is_shrink_phase(old(self)@.phase),
        ensures
            (final(self)@, r@) == next_shrink(old(self)@, ev@),
    {
        let (v, dev) = match &self.victim {
            Some(v) => match &v.device_path {
                Some(d) => (v.copy(), d.clone()),
                None => return self.fail_with(DriveError::UnexpectedEvent),
            },
            None => return self.fail_with(DriveError::UnexpectedEvent),
        };
        let lvp = crate::lvm::lv_path(self.name.as_str());
        match ev {
            Event::Done => match self.phase {
                Phase::ShrinkResized => self.to(Phase::ShrinkMoved, Action::RunLenient(crate::lvm::pv_move(&dev))),
                Phase::ShrinkMoved => {
                    let cmds = two(crate::lvm::vg_reduce(&self.name, &dev), crate::lvm::pv_remove(&dev));
                    self.to(Phase::ShrinkReduced, Action::Run(cmds))
                },
                Phase::ShrinkReduced => self.to(Phase::RegrowReport, Action::ReadLvm),
                Phase::Regrown => self.to(Phase::VictimDetached, Action::Detach(one_bsu(v))),
                Phase::VictimDetached => self.to(Phase::VictimDeleted, Action::Delete(one_bsu(v))),
                Phase::VictimDeleted => {
                    self.victim = None;
                    self.to(Phase::Resume, Action::RunLenient(crate::lvm::pv_move_no_arg()))
                },
                _ => self.fail_with(DriveError::UnexpectedEvent),
            },
            Event::Report(r) => if self.phase == Phase::RegrowReport {
                let fits = one(crate::fs::extend_fs_max(&self.mount_path));
                let ext = two(crate::lvm::lv_extend_full(&lvp), crate::fs::extend_fs_max(&self.mount_path));
                self.lv_fit_step(&r, Phase::Regrown, Phase::Regrown, Action::Run(fits), ext)
            } else {
                self.fail_with(DriveError::UnexpectedEvent)
            },
            _ => self.fail_with(DriveError::UnexpectedEvent),
        }
    }

    fn step_offline(&mut self, ev: Event) -> (r: Action)
        requires
            !is_cloud_phase(old(self)@.phase),
            !is_lvm_phase(old(self)@.phase),
            !is_fs_phase(old(self)@.phase),
            !is_shrink_phase(old(self)@.phase),
            old(self)@.phase != Phase::Idle,
        ensures
            (final(self)@, r@) == next_offline(old(self)@, ev@),
    {
        let lvp = crate::lvm::lv_path(self.name.as_str());
        match (self.phase, ev) {
            (Phase::OffMount, Event::Mount(m)) => match crate::fs::is_mounted(&m, &self.mount_path) {
                Ok(false) => self.to(Phase::LvOff, Action::TryRun(crate::lvm::lv_activate(false, &self.name))),
                Ok(true) => self.to(Phase::Unmounted, Action::Run(one(crate::fs::umount(&lvp)))),
                Err(e) => self.fail_with(DriveError::Fs(e)),
            },
            (Phase::Unmounted, Event::Done) => self.to(Phase::OffMount, Action::ReadMount(lvp)),
            (Phase::LvOff, Event::Done) => self.to(Phase::VgOff, Action::TryRun(crate::lvm::vg_activate(false, &self.name))),
            (Phase::VgOff, Event::Done) => self.to(Phase::OffVolumes, Action::ListVolumes),
            (Phase::OffVolumes, Event::Volumes(bs)) => {
                if bs.len() == 0 {
                    self.all_bsu = bs;
                    self.finish_now()
                } else {
                    self.off_check_step(bs)
                }
            },
            (Phase::OffDetached, Event::Done) => self.to(Phase::OffRefetch, Action::ListVolumes),
            (Phase::OffRefetch, Event::Volumes(bs)) => self.off_check_step(bs),
            (Phase::OffScan, Event::Done) => if self.target == DriveTarget::Delete {
                let all = copies(&self.all_bsu);
                self.to(Phase::Deleted, Action::Delete(all))
            } else {
                self.finish_now()
            },
            (Phase::Deleted, Event::Done) => self.finish_now(),
            _ => self.fail_with(DriveError::UnexpectedEvent),
        }
    }

    /// After a listing: detach the volumes attached to this machine, if any; else rescan.
    fn off_check_step(&mut self, bs: Vec<Bsu>) -> (r: Action)
        ensures
            (final(self)@, r@) == off_check(old(self)@, views(bs@)),
    {
        let here = Bsu::attached_to(&self.vm_id, &bs);
        self.all_bsu = bs;
        if here.len() > 0 {
            self.to(Phase::OffDetached, Action::Detach(here))
        } else {
            self.to(Phase::OffScan, Action::TryRun(crate::lvm::vg_scan()))
        }
    }

    /// Starts a reconcile toward the drive's target and returns its first action.
    pub fn reconcile(&mut self) -> (r: Action)
        ensures
            (final(self)@, r@) == start(old(self)@),
    {
        match self.target {
            DriveTarget::Online => self.to(Phase::Resume, Action::RunLenient(crate::lvm::pv_move_no_arg())),
            _ => {
                let lvp = crate::lvm::lv_path(self.name.as_str());
                self.to(Phase::OffMount, Action::ReadMount(lvp))
            },
        }
    }

    /// Takes what came of the last action and returns the next one. After `Finish` or
    /// `Fail` the drive is idle until the next [`Drive::reconcile`].
    pub fn step(&mut self, ev: Event) -> (r: Action)
        requires
            old(self)@.wf(),
        ensures
            (final(self)@, r@) == next(old(self)@, ev@),
            final(self)@.wf(),
    {
        if is_cloud(self.phase) {
            self.step_cloud(ev)
        } else if is_lvm(self.phase) {
            self.step_lvm(ev)
        } else if is_fs(self.phase) {
            self.step_fs(ev)
        } else if is_shrink(self.phase) {
            self.step_shrink(ev)
        } else if self.phase == Phase::Idle {
            self.fail_with(DriveError::UnexpectedEvent)
        } else {
            self.step_offline(ev)
        }
    }
}

fn is_cloud(p: Phase) -> (r: bool)
    ensures
        r == is_cloud_phase(p),
{
    p == Phase::Resume || p == Phase::Volumes || p == Phase::Presence || p == Phase::Attached
        || p == Phase::Created
}

fn is_lvm(p: Phase) -> (r: bool)
    ensures
        r == is_lvm_phase(p),
{
    p == Phase::PvReport || p == Phase::PvInit || p == Phase::VgScan || p == Phase::VgReport
        || p == Phase::VgCreated || p == Phase::VgActivated || p == Phase::ExtendReport
        || p == Phase::VgExtended || p == Phase::LvReport || p == Phase::LvCreated
        || p == Phase::LvActivated || p == Phase::SizesReport || p == Phase::LvExtended
}

fn is_fs(p: Phase) -> (r: bool)
    ensures
        r == is_fs_phase(p),
{
    p == Phase::Head || p == Phase::Formatted || p == Phase::Folder || p == Phase::FolderCreated
        || p == Phase::Mount || p == Phase::Mounted || p == Phase::Usage || p == Phase::FsExtended
}

fn is_shrink(p: Phase) -> (r: bool)
    ensures
        r == is_shrink_phase(p),
{
    p == Phase::ShrinkResized || p == Phase::ShrinkMoved || p == Phase::ShrinkReduced
        || p == Phase::RegrowReport || p == Phase::Regrown || p == Phase::VictimDetached
        || p == Phase::VictimDeleted
}


} // verus!
