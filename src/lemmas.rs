//! What the reconciler and the cloud pacing guarantee, proved over their models.
use vstd::prelude::*;
use crate::bsu::{is_attached_to, limiter_wait, request_of, select, BsuView};
use crate::config::DriveTarget;
use crate::drive::{
    all_attached, attached_here_of, finish, high_space, is_cloud_phase, is_fs_phase, is_lvm_phase,
    is_shrink_phase, larger_gib, low_space, missing_pvs, next, plan, smallest_index, start,
    total_gib, unassigned_pvs, ActionView, DriveView, EventView, Phase, Plan,
};
use crate::fs::{seems_formatted, FsStats};
use crate::lvm::{lv_size_of, report_for, vg_size_of, Lvm};

verus! {

/// A drive in one of the phases of an online reconcile.
pub open spec fn online_phase(p: Phase) -> bool {
    is_cloud_phase(p) || is_lvm_phase(p) || is_fs_phase(p) || is_shrink_phase(p)
}

/// A drive in one of the phases of an offline or delete reconcile.
pub open spec fn offline_phase(p: Phase) -> bool {
    !online_phase(p) && p != Phase::Idle
}

/// An online reconcile ends with success only on a reading that shows the filesystem
/// as large as its logical volume; it reads usage only once the logical volume is
/// mounted at the drive's mount path (or right after growing the filesystem); and it
/// looks at the filesystem only once the volume group and the logical volume are of
/// one size (or right after formatting).
pub proof fn lemma_online_success_is_mounted_and_sized(d: DriveView, ev: EventView)
    requires
        online_phase(d.phase),
    ensures
        next(d, ev).1 == ActionView::Finish ==> d.phase == Phase::Usage && (ev matches EventView::Usage(r, Some(st))
            && lv_size_of(r, d.name) == Ok::<u64, crate::lvm::LvmError>(st.size)),
        next(d, ev).0.phase == Phase::Usage ==> (d.phase == Phase::Mount && ev == EventView::Mount(Some(d.mount_path)))
            || d.phase == Phase::FsExtended,
        next(d, ev).0.phase == Phase::Head ==> (d.phase == Phase::SizesReport && (ev matches EventView::Report(r)
            && vg_size_of(r, d.name) is Ok && vg_size_of(r, d.name) == lv_size_of(r, d.name)))
            || d.phase == Phase::Formatted,
{
}

/// An offline reconcile ends with success only on an empty listing or after the scan
/// that follows a listing where no volume is attached here; that scan comes only after
/// such a listing; and the volumes are looked at only once the device is not mounted.
/// (The phase after the final delete belongs to delete reconciles only.)
pub proof fn lemma_offline_success_is_detached(d: DriveView, ev: EventView)
    requires
        offline_phase(d.phase),
        d.phase != Phase::Deleted,
        d.target == DriveTarget::Offline,
    ensures
        next(d, ev).1 == ActionView::Finish ==> (d.phase == Phase::OffVolumes && (ev matches EventView::Volumes(bs) && bs.len() == 0))
            || d.phase == Phase::OffScan,
        next(d, ev).0.phase == Phase::OffScan ==> (d.phase == Phase::OffVolumes || d.phase == Phase::OffRefetch)
            && (ev matches EventView::Volumes(bs) && attached_here_of(bs, d.vm_id).len() == 0
            && next(d, ev).0.all_bsu == bs),
        next(d, ev).0.phase == Phase::LvOff ==> d.phase == Phase::OffMount && ev == EventView::Mount(None),
{
}

/// A delete reconcile ends with success only on an empty listing or once the delete of
/// every volume of the last listing is done; and that delete names exactly those volumes.
pub proof fn lemma_delete_removes_every_volume(d: DriveView, ev: EventView)
    requires
        offline_phase(d.phase),
        d.target == DriveTarget::Delete,
    ensures
        next(d, ev).1 == ActionView::Finish ==> (d.phase == Phase::OffVolumes && (ev matches EventView::Volumes(bs) && bs.len() == 0))
            || d.phase == Phase::Deleted,
        next(d, ev).0.phase == Phase::Deleted && d.phase != Phase::Deleted ==> next(d, ev).1 == ActionView::Delete(d.all_bsu),
{
}

/// The policy adds a volume only below the volume count cap, and when it grows a drive
/// that is low on space, only below the size cap; at or above the count cap it removes.
pub proof fn lemma_growth_is_bounded(d: DriveView, st: FsStats)
    requires
        d.wf(),
    ensures
        plan(d, st) matches Plan::Grow(_) ==> d.all_bsu.len() + 1 <= d.max_bsu_count,
        (plan(d, st) matches Plan::Grow(_)) && low_space(d, st) ==> match d.max_total_size_gib {
            Some(m) => total_gib(d.all_bsu) < m,
            None => true,
        },
        d.all_bsu.len() >= d.max_bsu_count ==> plan(d, st) == Plan::RemoveSmallest,
{
}

/// With the use strictly between the thresholds and fewer volumes than the cap, the
/// policy changes nothing.
pub proof fn lemma_stable_between_thresholds(d: DriveView, st: FsStats)
    requires
        d.wf(),
        d.min_used_space_perc * st.size < st.used * 100,
        st.used * 100 < d.max_used_space_perc * st.size,
        d.all_bsu.len() < d.max_bsu_count,
    ensures
        plan(d, st) == Plan::Stable,
{
}

/// From a stable reading, the online reconcile ends at once, asking for no change.
pub proof fn lemma_stable_reading_finishes(d: DriveView, r: Seq<Lvm>, st: FsStats)
    requires
        d.wf(),
        d.phase == Phase::Usage,
        lv_size_of(r, d.name) == Ok::<u64, crate::lvm::LvmError>(st.size),
        d.all_bsu.len() > 0,
        plan(d, st) == Plan::Stable,
    ensures
        next(d, EventView::Usage(r, Some(st))) == finish(d),
        next(d, EventView::Usage(r, Some(st))).1 == ActionView::Finish,
{
}

/// At the volume cap and low on space, the policy removes the smallest volume; with that
/// volume gone and still low on space (and below the size cap), it adds a larger one.
pub proof fn lemma_rolling_grow(d: DriveView, st: FsStats, st2: FsStats)
    requires
        d.wf(),
        d.all_bsu.len() == d.max_bsu_count,
        smallest_index(d.all_bsu) is Some,
        low_space(
            DriveView { all_bsu: d.all_bsu.remove(smallest_index(d.all_bsu).unwrap()), ..d },
            st2,
        ),
        match d.max_total_size_gib {
            Some(m) => total_gib(d.all_bsu.remove(smallest_index(d.all_bsu).unwrap())) < m,
            None => true,
        },
    ensures
        plan(d, st) == Plan::RemoveSmallest,
        plan(DriveView { all_bsu: d.all_bsu.remove(smallest_index(d.all_bsu).unwrap()), ..d }, st2)
            == Plan::Grow(larger_gib(DriveView { all_bsu: d.all_bsu.remove(smallest_index(d.all_bsu).unwrap()), ..d })),
{
    lemma_smallest_index_in_range(d.all_bsu);
}

/// The smallest volume, when there is one, is one of the volumes.
pub proof fn lemma_smallest_index_in_range(bs: Seq<BsuView>)
    ensures
        smallest_index(bs) matches Some(i) ==> 0 <= i < bs.len(),
    decreases bs.len(),
{
    if bs.len() > 0 {
        lemma_smallest_index_in_range(bs.drop_last());
    }
}

/// A single volume of the first size with plenty of space is left as it is.
pub proof fn lemma_minimal_drive_is_kept(d: DriveView, st: FsStats)
    requires
        d.wf(),
        d.all_bsu.len() == 1,
        st.size > 0,
        high_space(d, st),
        total_gib(d.all_bsu) == d.initial_size_gib,
    ensures
        plan(d, st) == Plan::Minimal,
{
    assert(st.used * 100 < d.max_used_space_perc * st.size) by (nonlinear_arith)
        requires
            st.used * 100 <= d.min_used_space_perc * st.size,
            d.min_used_space_perc < d.max_used_space_perc,
            st.size > 0,
    ;
}

/// A call whose clock reading comes after waiting what the limiter asks, from a call
/// read at `last`, has a reading at least 4 s later; as a reading `t` stands for a time in
/// `[t, t + 1)` (here in milliseconds: `t_ms`, `last_ms`), the real gap exceeds 3 s.
pub proof fn lemma_limiter_gap(last: i64, now: i64, t: i64, last_ms: int, t_ms: int)
    requires
        limiter_wait(last as int, now as int) < u64::MAX,
        t >= now + limiter_wait(last as int, now as int),
        last * 1000 <= last_ms < last * 1000 + 1000,
        t * 1000 <= t_ms < t * 1000 + 1000,
    ensures
        t - last >= 4,
        t_ms - last_ms > 3000,
{
}


/// What the host and the cloud look like while a reconcile runs: the answer to every
/// reading the machine can ask for.
pub struct World {
    pub volumes: Seq<BsuView>,
    pub present: Seq<bool>,
    pub reports: Seq<Lvm>,
    pub head: Seq<u8>,
    pub folder: bool,
    pub mounted: Option<Seq<char>>,
    pub stats: Option<FsStats>,
}

/// What `w` answers to the action `a`; actions that change something answer `Done`.
pub open spec fn answer(w: World, a: ActionView) -> EventView {
    match a {
        ActionView::ListVolumes => EventView::Volumes(w.volumes),
        ActionView::ProbeDevices(_) => EventView::Present(w.present),
        ActionView::ReadLvm => EventView::Report(w.reports),
        ActionView::ReadHead(_) => EventView::Head(w.head),
        ActionView::IsFolder(_) => EventView::Folder(w.folder),
        ActionView::ReadMount(_) => EventView::Mount(w.mounted),
        ActionView::ReadUsage(_) => EventView::Usage(w.reports, w.stats),
        _ => EventView::Done,
    }
}

/// The action changes the drive's structure (best-effort activations, scans and the
/// resume of interrupted moves do not).
pub open spec fn mutates(a: ActionView) -> bool {
    match a {
        ActionView::Run(_) | ActionView::Attach(_) | ActionView::Detach(_) | ActionView::Create(_)
        | ActionView::Delete(_) | ActionView::CreateFolder(_) => true,
        _ => false,
    }
}

/// Runs the machine from `(d, a)` against a world that does not change, for at most
/// `fuel` actions: the last action, and whether any action on the way changed something.
pub open spec fn run_in(d: DriveView, a: ActionView, w: World, fuel: nat) -> (ActionView, bool)
    decreases fuel,
{
    if fuel == 0 || a is Finish || a is Fail {
        (a, false)
    } else {
        let (d2, a2) = next(d, answer(w, a));
        let (end, m) = run_in(d2, a2, w, (fuel - 1) as nat);
        (end, m || mutates(a))
    }
}

/// A world where the online stack of `d` is complete and the policy asks for no change:
/// use between the thresholds, a minimal drive with plenty of space, or a full drive at
/// its size cap.
pub open spec fn stable_world(d: DriveView, w: World) -> bool {
    &&& w.volumes.len() > 0
    &&& w.present.len() == w.volumes.len()
    &&& all_attached(w.volumes, d.vm_id, w.present)
    &&& missing_pvs(w.volumes, w.reports, d.name).len() == 0
    &&& unassigned_pvs(w.volumes, w.reports).len() == 0
    &&& report_for(w.reports, d.name) matches Some(l) && l.lv@.len() > 0
    &&& vg_size_of(w.reports, d.name) is Ok
    &&& vg_size_of(w.reports, d.name) == lv_size_of(w.reports, d.name)
    &&& seems_formatted(w.head)
    &&& w.folder
    &&& w.mounted == Some(d.mount_path)
    &&& w.stats matches Some(st) && lv_size_of(w.reports, d.name) == Ok::<u64, crate::lvm::LvmError>(st.size)
        && (plan(DriveView { all_bsu: w.volumes, ..d }, st) == Plan::Stable
            || plan(DriveView { all_bsu: w.volumes, ..d }, st) == Plan::Minimal
            || plan(DriveView { all_bsu: w.volumes, ..d }, st) == Plan::Bounded)
}

/// An online reconcile in a stable world ends with success and changes nothing; the
/// world being unchanged, a second reconcile does the same.
pub proof fn lemma_stable_reconcile_changes_nothing(d: DriveView, w: World)
    requires
        d.wf(),
        d.target == DriveTarget::Online,
        stable_world(d, w),
    ensures
        run_in(start(d).0, start(d).1, w, 20) == (ActionView::Finish, false),
{
    reveal_with_fuel(run_in, 21);
}


/// What an online run keeps true against an unchanging world: the readings it waits for
/// match its phase, from the filesystem steps on the world's volume group and logical
/// volume are of one size, and from the usage reading on, the world has the drive mounted.
pub open spec fn online_inv(d: DriveView, a: ActionView, w: World) -> bool {
    &&& (d.phase == Phase::SizesReport ==> a is ReadLvm)
    &&& (is_fs_phase(d.phase) ==> vg_size_of(w.reports, d.name) is Ok
        && vg_size_of(w.reports, d.name) == lv_size_of(w.reports, d.name))
    &&& (d.phase == Phase::Mount ==> a is ReadMount)
    &&& (d.phase == Phase::Usage ==> a is ReadUsage)
    &&& (d.phase == Phase::Usage || d.phase == Phase::FsExtended ==> w.mounted == Some(d.mount_path))
}

proof fn lemma_online_run(d: DriveView, a: ActionView, w: World, n: nat)
    requires
        online_phase(d.phase),
        online_inv(d, a, w),
        !(a is Finish),
    ensures
        run_in(d, a, w, n).0 == ActionView::Finish ==> w.mounted == Some(d.mount_path)
            && (w.stats matches Some(st) && lv_size_of(w.reports, d.name) == Ok::<u64, crate::lvm::LvmError>(st.size))
            && vg_size_of(w.reports, d.name) == lv_size_of(w.reports, d.name),
    decreases n,
{
    if n > 0 && !(a is Finish) && !(a is Fail) {
        let (d2, a2) = next(d, answer(w, a));
        lemma_online_success_is_mounted_and_sized(d, answer(w, a));
        lemma_next_keeps_settings(d, answer(w, a));
        lemma_online_step_shape(d, answer(w, a));
        if !(a2 is Finish) && !(a2 is Fail) {
            assert(online_phase(d2.phase));
            assert(online_inv(d2, a2, w));
            lemma_online_run(d2, a2, w, (n - 1) as nat);
        } else {
            assert(run_in(d2, a2, w, (n - 1) as nat).0 == a2);
        }
    }
}

/// An online reconcile that ends with success against a world that does not change
/// leaves that world with the logical volume mounted at the drive's mount path, and the
/// filesystem, the logical volume and the volume group all of one size.
pub proof fn lemma_online_success_leaves_drive_mounted(d: DriveView, w: World, n: nat)
    requires
        d.target == DriveTarget::Online,
    ensures
        run_in(start(d).0, start(d).1, w, n).0 == ActionView::Finish ==> w.mounted == Some(d.mount_path)
            && (w.stats matches Some(st) && lv_size_of(w.reports, d.name) == Ok::<u64, crate::lvm::LvmError>(st.size))
            && vg_size_of(w.reports, d.name) == lv_size_of(w.reports, d.name),
{
    lemma_online_run(start(d).0, start(d).1, w, n);
}

/// What an offline run keeps true against an unchanging world.
pub open spec fn offline_inv(d: DriveView, a: ActionView, w: World) -> bool {
    &&& (d.phase == Phase::OffMount ==> a is ReadMount)
    &&& (d.phase == Phase::OffVolumes || d.phase == Phase::OffRefetch ==> a is ListVolumes)
    &&& (d.phase == Phase::OffScan ==> attached_here_of(w.volumes, d.vm_id).len() == 0)
    &&& (d.phase == Phase::LvOff || d.phase == Phase::VgOff || d.phase == Phase::OffVolumes
        || d.phase == Phase::OffDetached || d.phase == Phase::OffRefetch
        || d.phase == Phase::OffScan ==> w.mounted is None)
}

proof fn lemma_offline_run(d: DriveView, a: ActionView, w: World, n: nat)
    requires
        offline_phase(d.phase),
        d.phase != Phase::Deleted,
        d.target == DriveTarget::Offline,
        offline_inv(d, a, w),
        !(a is Finish),
    ensures
        run_in(d, a, w, n).0 == ActionView::Finish ==> w.mounted is None
            && attached_here_of(w.volumes, d.vm_id).len() == 0,
    decreases n,
{
    if n > 0 && !(a is Finish) && !(a is Fail) {
        let (d2, a2) = next(d, answer(w, a));
        lemma_offline_success_is_detached(d, answer(w, a));
        lemma_next_keeps_settings(d, answer(w, a));
        lemma_offline_step_shape(d, answer(w, a));
        if !(a2 is Finish) && !(a2 is Fail) {
            assert(offline_phase(d2.phase));
            assert(d2.phase != Phase::Deleted);
            assert(offline_inv(d2, a2, w));
            lemma_offline_run(d2, a2, w, (n - 1) as nat);
        } else {
            assert(run_in(d2, a2, w, (n - 1) as nat).0 == a2);
        }
    }
}

/// An offline reconcile that ends with success against a world that does not change
/// finds the logical volume not mounted and no volume of the drive attached to this
/// machine.
pub proof fn lemma_offline_success_leaves_drive_detached(d: DriveView, w: World, n: nat)
    requires
        d.target == DriveTarget::Offline,
    ensures
        run_in(start(d).0, start(d).1, w, n).0 == ActionView::Finish ==> w.mounted is None
            && forall|i: int| 0 <= i < w.volumes.len() ==> (#[trigger] w.volumes[i]).vm_id != Some(d.vm_id),
{
    lemma_offline_run(start(d).0, start(d).1, w, n);
    if run_in(start(d).0, start(d).1, w, n).0 == ActionView::Finish {
        lemma_none_attached_here(w.volumes, d.vm_id);
    }
}

/// No volume kept as attached here means no volume is attached here.
pub proof fn lemma_none_attached_here(bs: Seq<BsuView>, vm: Seq<char>)
    requires
        attached_here_of(bs, vm).len() == 0,
    ensures
        forall|i: int| 0 <= i < bs.len() ==> (#[trigger] bs[i]).vm_id != Some(vm),
    decreases bs.len(),
{
    if bs.len() > 0 {
        let p = |b: BsuView| is_attached_to(b, vm);
        assert(select(bs, p).len() >= select(bs.drop_last(), p).len());
        lemma_none_attached_here(bs.drop_last(), vm);
        assert forall|i: int| 0 <= i < bs.len() implies (#[trigger] bs[i]).vm_id != Some(vm) by {
            if i < bs.len() - 1 {
                assert(bs.drop_last()[i] == bs[i]);
            }
        }
    }
}


/// A step changes neither the drive's settings nor the machine it runs on.
pub proof fn lemma_next_keeps_settings(d: DriveView, ev: EventView)
    ensures
        next(d, ev).0.name == d.name,
        next(d, ev).0.target == d.target,
        next(d, ev).0.mount_path == d.mount_path,
        next(d, ev).0.vm_id == d.vm_id,
        next(d, ev).0.wf() == d.wf(),
{
}


/// Online steps stay online until the reconcile ends, and each asks for the reading its
/// next phase waits for.
pub proof fn lemma_online_step_shape(d: DriveView, ev: EventView)
    requires
        online_phase(d.phase),
    ensures
        !(next(d, ev).1 is Finish) && !(next(d, ev).1 is Fail) ==> online_phase(next(d, ev).0.phase),
        next(d, ev).0.phase == Phase::Mount ==> next(d, ev).1 is ReadMount,
        next(d, ev).0.phase == Phase::Usage ==> next(d, ev).1 is ReadUsage,
        next(d, ev).0.phase == Phase::FsExtended ==> d.phase == Phase::Usage,
        next(d, ev).0.phase == Phase::SizesReport ==> next(d, ev).1 is ReadLvm,
        is_fs_phase(next(d, ev).0.phase) && !is_fs_phase(d.phase) ==> next(d, ev).0.phase == Phase::Head,
{
}

/// Offline steps stay offline until the reconcile ends, and each asks for the reading
/// its next phase waits for; the volume list they keep is the last one read.
pub proof fn lemma_offline_step_shape(d: DriveView, ev: EventView)
    requires
        offline_phase(d.phase),
        d.phase != Phase::Deleted,
        d.target == DriveTarget::Offline,
    ensures
        !(next(d, ev).1 is Finish) && !(next(d, ev).1 is Fail) ==> offline_phase(next(d, ev).0.phase)
            && next(d, ev).0.phase != Phase::Deleted,
        next(d, ev).0.phase == Phase::OffMount ==> next(d, ev).1 is ReadMount,
        next(d, ev).0.phase == Phase::OffVolumes || next(d, ev).0.phase == Phase::OffRefetch
            ==> next(d, ev).1 is ListVolumes,
        next(d, ev).0.phase == Phase::VgOff ==> d.phase == Phase::LvOff,
        next(d, ev).0.phase == Phase::OffVolumes ==> d.phase == Phase::VgOff,
        next(d, ev).0.phase == Phase::OffDetached ==> d.phase == Phase::OffVolumes || d.phase == Phase::OffRefetch,
        next(d, ev).0.phase == Phase::OffRefetch ==> d.phase == Phase::OffDetached,
{
}


/// The volumes that the actions of a run against `w` delete, in order.
pub open spec fn deleted_in(d: DriveView, a: ActionView, w: World, fuel: nat) -> Seq<BsuView>
    decreases fuel,
{
    if fuel == 0 || a is Finish || a is Fail {
        Seq::empty()
    } else {
        let (d2, a2) = next(d, answer(w, a));
        let here = match a {
            ActionView::Delete(bs) => bs,
            _ => Seq::empty(),
        };
        here + deleted_in(d2, a2, w, (fuel - 1) as nat)
    }
}

/// What a delete run keeps true against an unchanging world.
pub open spec fn delete_inv(d: DriveView, a: ActionView, w: World) -> bool {
    &&& (d.phase == Phase::OffVolumes || d.phase == Phase::OffRefetch ==> a is ListVolumes)
    &&& (d.phase == Phase::OffScan ==> d.all_bsu == w.volumes)
    &&& (d.phase == Phase::Deleted ==> a == ActionView::Delete(w.volumes))
    &&& (d.phase != Phase::Deleted ==> !(a is Delete))
}

/// Delete steps stay in the offline phases until the reconcile ends; the delete they
/// ask for names the volumes of the last listing.
pub proof fn lemma_delete_step_shape(d: DriveView, ev: EventView)
    requires
        offline_phase(d.phase),
        d.target == DriveTarget::Delete,
    ensures
        !(next(d, ev).1 is Finish) && !(next(d, ev).1 is Fail) ==> offline_phase(next(d, ev).0.phase),
        next(d, ev).0.phase == Phase::OffVolumes || next(d, ev).0.phase == Phase::OffRefetch
            ==> next(d, ev).1 is ListVolumes,
        next(d, ev).0.phase == Phase::OffScan ==> (d.phase == Phase::OffVolumes || d.phase == Phase::OffRefetch)
            && (ev matches EventView::Volumes(bs) && next(d, ev).0.all_bsu == bs),
        next(d, ev).0.phase == Phase::Deleted ==> (d.phase == Phase::OffScan
            && next(d, ev).1 == ActionView::Delete(d.all_bsu)) || d.phase == Phase::Deleted,
        next(d, ev).0.phase != Phase::Deleted ==> !(next(d, ev).1 is Delete),
        d.phase == Phase::Deleted ==> next(d, ev).1 is Finish || next(d, ev).1 is Fail,
        next(d, ev).1 is Finish ==> (d.phase == Phase::OffVolumes && (ev matches EventView::Volumes(bs) && bs.len() == 0))
            || d.phase == Phase::Deleted,
{
}

proof fn lemma_delete_run(d: DriveView, a: ActionView, w: World, n: nat)
    requires
        offline_phase(d.phase),
        d.target == DriveTarget::Delete,
        delete_inv(d, a, w),
        !(a is Finish),
    ensures
        run_in(d, a, w, n).0 == ActionView::Finish ==> w.volumes.len() == 0 || deleted_in(d, a, w, n) == w.volumes,
    decreases n,
{
    if n > 0 && !(a is Finish) && !(a is Fail) {
        let (d2, a2) = next(d, answer(w, a));
        lemma_delete_step_shape(d, answer(w, a));
        lemma_next_keeps_settings(d, answer(w, a));
        if !(a2 is Finish) && !(a2 is Fail) {
            assert(offline_phase(d2.phase));
            assert(delete_inv(d2, a2, w));
            lemma_delete_run(d2, a2, w, (n - 1) as nat);
            if d.phase != Phase::Deleted {
                assert(deleted_in(d, a, w, n) =~= deleted_in(d2, a2, w, (n - 1) as nat));
            }
        } else {
            assert(run_in(d2, a2, w, (n - 1) as nat).0 == a2);
            assert(deleted_in(d2, a2, w, (n - 1) as nat) =~= Seq::<BsuView>::empty());
            if d.phase == Phase::Deleted {
                assert(deleted_in(d, a, w, n) =~= w.volumes);
            }
        }
    }
}

/// A delete reconcile that ends with success against a world that does not change
/// either found no volume, or deleted exactly the volumes the world lists.
pub proof fn lemma_delete_success_deletes_every_volume(d: DriveView, w: World, n: nat)
    requires
        d.target == DriveTarget::Delete,
    ensures
        run_in(start(d).0, start(d).1, w, n).0 == ActionView::Finish ==> w.volumes.len() == 0
            || deleted_in(start(d).0, start(d).1, w, n) == w.volumes,
{
    lemma_delete_run(start(d).0, start(d).1, w, n);
}


/// Once every volume of a drive is deleted, the first change an online reconcile makes
/// is the creation of one volume of the first size, after nothing but readings.
pub proof fn lemma_online_after_delete_starts_fresh(d: DriveView, w: World)
    requires
        d.wf(),
        d.target == DriveTarget::Online,
        w.volumes.len() == 0,
        w.present.len() == 0,
    ensures
        run_in(start(d).0, start(d).1, w, 3) == (
            ActionView::Create(request_of(d.name, d.disk_type, d.disk_iops_per_gib, d.initial_size_gib)),
            false,
        ),
{
    reveal_with_fuel(run_in, 4);
    let d1 = next(start(d).0, EventView::Done).0;
    let d2 = next(d1, EventView::Volumes(w.volumes)).0;
    assert(crate::drive::device_paths(w.volumes) =~= Seq::empty());
    assert(all_attached(d2.all_bsu, d2.vm_id, w.present));
}


/// A single volume of the first size with plenty of space, in a world where the stack
/// is complete: the online reconcile ends with success and changes nothing.
pub proof fn lemma_minimal_drive_reconcile_changes_nothing(d: DriveView, w: World, st: FsStats)
    requires
        d.wf(),
        d.target == DriveTarget::Online,
        stable_world(d, w),
        w.stats == Some(st),
        w.volumes.len() == 1,
        st.size > 0,
        high_space(DriveView { all_bsu: w.volumes, ..d }, st),
        total_gib(w.volumes) == d.initial_size_gib,
    ensures
        plan(DriveView { all_bsu: w.volumes, ..d }, st) == Plan::Minimal,
        run_in(start(d).0, start(d).1, w, 20) == (ActionView::Finish, false),
{
    lemma_minimal_drive_is_kept(DriveView { all_bsu: w.volumes, ..d }, st);
    lemma_stable_reconcile_changes_nothing(d, w);
}
} // verus!
