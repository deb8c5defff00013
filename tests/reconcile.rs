use bsud::bsu::Bsu;
use bsud::config::{ConfigFileDrive, DiskType, DriveTarget};
use bsud::drive::{Action, Drive, DriveCmd, DriveError, Event, Plan};
use bsud::fs::{FsError, FsStats};
use bsud::lvm::{Lv, Lvm, LvmError, Pv, Vg};
use bsud::utils::CommandLine;

const GIB: u64 = 1024 * 1024 * 1024;
const VM: &str = "i-0001";
const LVP: &str = "/dev/mapper/data-bsud";
const MP: &str = "/mnt/data";

fn config(target: DriveTarget) -> ConfigFileDrive {
    ConfigFileDrive {
        name: "data".to_string(),
        target,
        mount_path: MP.to_string(),
        disk_type: None,
        disk_iops_per_gib: None,
        max_total_size_gib: None,
        initial_size_gib: None,
        max_bsu_count: None,
        max_used_space_perc: None,
        min_used_space_perc: None,
        disk_scale_factor_perc: None,
    }
}

fn drive_with(c: ConfigFileDrive) -> Drive {
    Drive::new(c, VM.to_string(), 1000).unwrap()
}

fn drive(target: DriveTarget) -> Drive {
    drive_with(config(target))
}

fn bsu(id: &str, gib: u64, attached: bool, dev: &str) -> Bsu {
    Bsu {
        vm_id: if attached { Some(VM.to_string()) } else { None },
        drive_name: "data".to_string(),
        id: id.to_string(),
        size_bytes: gib * GIB,
        size_gib: gib,
        device_path: if dev.is_empty() { None } else { Some(dev.to_string()) },
    }
}

fn words(c: &CommandLine) -> Vec<String> {
    let mut w = vec![c.program.clone()];
    w.extend(c.args.iter().cloned());
    w
}

fn s(v: &[&str]) -> Vec<String> {
    v.iter().map(|x| x.to_string()).collect()
}

fn run(a: &Action) -> Vec<Vec<String>> {
    match a {
        Action::Run(cmds) => cmds.iter().map(words).collect(),
        other => panic!("expected commands, got {:?}", other),
    }
}

fn vg_entry(pvs: &[&str], vg_bytes: u64, lv_bytes: Option<u64>) -> Lvm {
    let mut l = Lvm::default();
    let mut vg = Vg::default();
    vg.vg_name = "data".to_string();
    vg.vg_size = format!("{}B", vg_bytes);
    l.vg.push(vg);
    for p in pvs {
        let mut pv = Pv::default();
        pv.pv_name = p.to_string();
        l.pv.push(pv);
    }
    if let Some(b) = lv_bytes {
        let mut lv = Lv::default();
        lv.lv_name = "bsud".to_string();
        lv.lv_size = format!("{}B", b);
        l.lv.push(lv);
    }
    l
}

fn free_entry(pvs: &[&str]) -> Lvm {
    let mut l = Lvm::default();
    for p in pvs {
        let mut pv = Pv::default();
        pv.pv_name = p.to_string();
        l.pv.push(pv);
    }
    l
}

fn stats(size_gib: u64, used_gib: u64) -> FsStats {
    FsStats { size: size_gib * GIB, used: used_gib * GIB, available: (size_gib - used_gib) * GIB }
}

/// Walks an online drive whose stack is complete up to the usage reading.
fn walk_to_usage(d: &mut Drive, vols: &[Bsu]) -> Action {
    let devs: Vec<&str> = vols.iter().map(|b| b.device_path.as_deref().unwrap()).collect();
    let total: u64 = vols.iter().map(|b| b.size_bytes).sum();
    let report = vec![vg_entry(&devs, total, Some(total))];
    assert!(matches!(d.reconcile(), Action::RunLenient(_)));
    assert!(matches!(d.step(Event::Done), Action::ListVolumes));
    assert!(matches!(d.step(Event::Volumes(vols.to_vec())), Action::ProbeDevices(_)));
    assert!(matches!(d.step(Event::Present(vec![true; vols.len()])), Action::ReadLvm));
    assert!(matches!(d.step(Event::Report(report.clone())), Action::TryRun(_)));
    assert!(matches!(d.step(Event::Done), Action::ReadLvm));
    assert!(matches!(d.step(Event::Report(report.clone())), Action::TryRun(_)));
    assert!(matches!(d.step(Event::Done), Action::ReadLvm));
    assert!(matches!(d.step(Event::Report(report.clone())), Action::TryRun(_)));
    assert!(matches!(d.step(Event::Done), Action::ReadLvm));
    assert!(matches!(d.step(Event::Report(report.clone())), Action::ReadHead(_)));
    assert!(matches!(d.step(Event::Head(vec![1, 2, 3])), Action::IsFolder(_)));
    assert!(matches!(d.step(Event::Folder(true)), Action::ReadMount(_)));
    let a = d.step(Event::Mount(Some(MP.to_string())));
    assert_eq!(a, Action::ReadUsage(LVP.to_string()));
    a
}

fn usage_report(vols: &[Bsu]) -> Vec<Lvm> {
    let devs: Vec<&str> = vols.iter().map(|b| b.device_path.as_deref().unwrap()).collect();
    let total: u64 = vols.iter().map(|b| b.size_bytes).sum();
    vec![vg_entry(&devs, total, Some(total))]
}

#[test]
fn new_drive_takes_defaults() {
    let d = drive(DriveTarget::Online);
    assert_eq!(d.disk_type, DiskType::Gp2);
    assert_eq!(d.initial_size_gib, 10);
    assert_eq!(d.max_bsu_count, 10);
    assert_eq!(d.max_used_space_perc, 85);
    assert_eq!(d.min_used_space_perc, 40);
    assert_eq!(d.disk_scale_factor_perc, 20);
    assert!(d.is_idle());
    assert_eq!(d.bsu_count(), 0);
    assert!(!d.is_due(1000));
    assert!(d.is_due(1001));
}

#[test]
fn invalid_settings_are_refused() {
    let mut c = config(DriveTarget::Online);
    c.min_used_space_perc = Some(90);
    assert_eq!(Drive::new(c, VM.to_string(), 0).err(), Some(DriveError::ConfigInvalid));
    let mut c = config(DriveTarget::Online);
    c.max_bsu_count = Some(1);
    assert_eq!(Drive::new(c, VM.to_string(), 0).err(), Some(DriveError::ConfigInvalid));
    let mut c = config(DriveTarget::Online);
    c.initial_size_gib = Some(0);
    assert_eq!(Drive::new(c, VM.to_string(), 0).err(), Some(DriveError::ConfigInvalid));
}

#[test]
fn cold_start_creates_and_builds_the_stack() {
    let mut d = drive(DriveTarget::Online);
    assert_eq!(run_lenient(&d.reconcile()), s(&["lvm", "pvmove"]));
    assert_eq!(d.step(Event::Done), Action::ListVolumes);
    assert_eq!(d.step(Event::Volumes(vec![])), Action::ProbeDevices(vec![]));
    match d.step(Event::Present(vec![])) {
        Action::Create(r) => {
            assert_eq!((r.size_gib, r.volume_type.as_str(), r.iops), (10, "gp2", None));
        },
        other => panic!("{:?}", other),
    }
    assert!(matches!(d.step(Event::Done), Action::RunLenient(_)));
    assert_eq!(d.step(Event::Done), Action::ListVolumes);
    let v = bsu("vol-1", 10, true, "/dev/xvdb");
    assert_eq!(d.step(Event::Volumes(vec![v.clone()])), Action::ProbeDevices(s(&["/dev/xvdb"])));
    assert_eq!(d.step(Event::Present(vec![true])), Action::ReadLvm);
    assert_eq!(run(&d.step(Event::Report(vec![]))), vec![s(&["lvm", "pvcreate", "/dev/xvdb"])]);
    assert_eq!(d.step(Event::Done), Action::ReadLvm);
    let free = vec![free_entry(&["/dev/xvdb"])];
    assert!(matches!(d.step(Event::Report(free.clone())), Action::TryRun(_)));
    assert_eq!(d.step(Event::Done), Action::ReadLvm);
    assert_eq!(
        run(&d.step(Event::Report(free.clone()))),
        vec![s(&["lvm", "vgcreate", "--alloc", "normal", "data", "/dev/xvdb"])]
    );
    assert_eq!(d.step(Event::Done), Action::ReadLvm);
    let no_lv = vec![vg_entry(&["/dev/xvdb"], 10 * GIB, None)];
    assert!(matches!(d.step(Event::Report(no_lv.clone())), Action::TryRun(_)));
    assert_eq!(d.step(Event::Done), Action::ReadLvm);
    assert_eq!(
        run(&d.step(Event::Report(no_lv.clone()))),
        vec![s(&["lvm", "lvcreate", "--extents", "100%FREE", "-n", "bsud", "data"])]
    );
    assert_eq!(d.step(Event::Done), Action::ReadLvm);
    let full = vec![vg_entry(&["/dev/xvdb"], 10 * GIB, Some(10 * GIB))];
    assert!(matches!(d.step(Event::Report(full.clone())), Action::TryRun(_)));
    assert_eq!(d.step(Event::Done), Action::ReadLvm);
    assert_eq!(d.step(Event::Report(full.clone())), Action::ReadHead(LVP.to_string()));
    assert_eq!(run(&d.step(Event::Head(vec![0; 64]))), vec![s(&["mkfs.btrfs", LVP])]);
    assert_eq!(d.step(Event::Done), Action::ReadHead(LVP.to_string()));
    assert_eq!(d.step(Event::Head(vec![0, 9])), Action::IsFolder(MP.to_string()));
    assert_eq!(d.step(Event::Folder(false)), Action::CreateFolder(MP.to_string()));
    assert_eq!(d.step(Event::Done), Action::IsFolder(MP.to_string()));
    assert_eq!(d.step(Event::Folder(true)), Action::ReadMount(LVP.to_string()));
    assert_eq!(run(&d.step(Event::Mount(None))), vec![s(&["mount", LVP, MP])]);
    assert_eq!(d.step(Event::Done), Action::ReadMount(LVP.to_string()));
    assert_eq!(d.step(Event::Mount(Some(MP.to_string()))), Action::ReadUsage(LVP.to_string()));
    // A fresh 10 GiB filesystem with little in it is as small as the drive may be.
    assert_eq!(d.step(Event::Usage(full, Some(stats(10, 1)))), Action::Finish);
    assert!(d.is_idle());
    assert_eq!(d.all_bsu_size_gib(), 10);
}

fn run_lenient(a: &Action) -> Vec<String> {
    match a {
        Action::RunLenient(c) => words(c),
        other => panic!("{:?}", other),
    }
}

#[test]
fn full_drive_grows_by_a_larger_volume() {
    let mut d = drive(DriveTarget::Online);
    let vols = vec![bsu("vol-1", 10, true, "/dev/xvdb")];
    walk_to_usage(&mut d, &vols);
    match d.step(Event::Usage(usage_report(&vols), Some(stats(10, 9)))) {
        Action::Create(r) => assert_eq!(r.size_gib, 12),
        other => panic!("{:?}", other),
    }
    // The next pass starts over from the top.
    assert_eq!(run_lenient(&d.step(Event::Done)), s(&["lvm", "pvmove"]));
}

#[test]
fn policy_values() {
    let mut d = drive(DriveTarget::Online);
    let vols = vec![bsu("vol-1", 10, true, "/dev/xvdb")];
    walk_to_usage(&mut d, &vols);
    assert_eq!(d.plan(&stats(10, 9)), Plan::Grow(12));
    assert_eq!(d.plan(&stats(10, 5)), Plan::Stable);
    assert_eq!(d.plan(&stats(10, 1)), Plan::Minimal);
    assert!(d.is_drive_low_space_left(&stats(100, 85)));
    assert!(!d.is_drive_low_space_left(&stats(100, 84)));
    assert!(d.is_drive_high_space_left(&stats(100, 40)));
    assert!(!d.is_drive_high_space_left(&stats(100, 41)));
    assert_eq!(d.larger_bsu_size_gib(), 12);
    assert_eq!(d.smaller_bsu_size_gib(), 10);
    assert!(d.is_drive_contains_smallest_bsu());
    assert!(!d.is_max_space_reached());
    assert!(d.has_minimal_size());
    // ceil(3 GiB / 62.5%) lies below the first size, so the first size wins.
    assert_eq!(d.ideal_size_bytes(&stats(20, 3)), 10 * GIB);
    // ceil(10 GiB / 62.5%) = 16 GiB, under the filesystem size.
    assert_eq!(d.ideal_size_bytes(&stats(20, 10)), 16 * GIB);
    // Held at the filesystem size.
    assert_eq!(d.ideal_size_bytes(&stats(12, 10)), 12 * GIB);
}

#[test]
fn smaller_volume_before_the_cap() {
    let mut d = drive(DriveTarget::Online);
    let vols = vec![bsu("vol-1", 20, true, "/dev/xvdb")];
    walk_to_usage(&mut d, &vols);
    // The smallest is above the first size: add ceil(20 * 0.8) = 16 GiB.
    assert_eq!(d.plan(&stats(20, 19)), Plan::Grow(16));
    assert_eq!(d.smallest_bsu().unwrap().id, "vol-1");
    assert_eq!(d.largest_bsu().unwrap().id, "vol-1");
}

#[test]
fn largest_volume_is_removed_when_usage_is_low() {
    let mut d = drive(DriveTarget::Online);
    let vols = vec![bsu("vol-1", 10, true, "/dev/xvdb"), bsu("vol-2", 12, true, "/dev/xvdc")];
    walk_to_usage(&mut d, &vols);
    let st = FsStats { size: 22 * GIB, used: 2 * GIB, available: 20 * GIB };
    assert_eq!(d.plan(&st), Plan::RemoveLargest);
    let a = d.step(Event::Usage(usage_report(&vols), Some(st)));
    assert_eq!(
        run(&a),
        vec![
            s(&["btrfs", "filesystem", "resize", "10737418240", MP]),
            s(&["lvm", "lvreduce", "--yes", "--size", "10737418240B", LVP]),
        ]
    );
    assert_eq!(run_lenient(&d.step(Event::Done)), s(&["lvm", "pvmove", "/dev/xvdc"]));
    assert_eq!(
        run(&d.step(Event::Done)),
        vec![s(&["lvm", "vgreduce", "data", "/dev/xvdc"]), s(&["lvm", "pvremove", "/dev/xvdc"])]
    );
    assert_eq!(d.step(Event::Done), Action::ReadLvm);
    let after = vec![vg_entry(&["/dev/xvdb"], 10 * GIB, Some(9 * GIB))];
    assert_eq!(
        run(&d.step(Event::Report(after))),
        vec![s(&["lvm", "lvextend", "--extents", "+100%FREE", LVP]), s(&["btrfs", "filesystem", "resize", "max", MP])]
    );
    match d.step(Event::Done) {
        Action::Detach(v) => assert_eq!(v.iter().map(|b| b.id.as_str()).collect::<Vec<_>>(), vec!["vol-2"]),
        other => panic!("{:?}", other),
    }
    match d.step(Event::Done) {
        Action::Delete(v) => assert_eq!(v.iter().map(|b| b.id.as_str()).collect::<Vec<_>>(), vec!["vol-2"]),
        other => panic!("{:?}", other),
    }
    assert_eq!(run_lenient(&d.step(Event::Done)), s(&["lvm", "pvmove"]));
}

#[test]
fn removal_needs_free_space_and_a_device() {
    let mut d = drive(DriveTarget::Online);
    let vols = vec![bsu("vol-1", 10, true, "/dev/xvdb"), bsu("vol-2", 12, true, "/dev/xvdc")];
    walk_to_usage(&mut d, &vols);
    let st = FsStats { size: 22 * GIB, used: 2 * GIB, available: 11 * GIB };
    assert_eq!(d.step(Event::Usage(usage_report(&vols), Some(st))), Action::Fail(DriveError::NotEnoughSpace));

    let mut d = drive(DriveTarget::Online);
    let vols = vec![bsu("vol-1", 10, true, "/dev/xvdb"), bsu("vol-2", 12, true, "/dev/xvdc")];
    walk_to_usage(&mut d, &vols);
    let mut listed = vols.clone();
    listed[1].device_path = None;
    // Re-list without the device path of the largest, then reach the policy again.
    let mut d2 = drive(DriveTarget::Online);
    assert!(matches!(d2.reconcile(), Action::RunLenient(_)));
    assert!(matches!(d2.step(Event::Done), Action::ListVolumes));
    assert!(matches!(d2.step(Event::Volumes(listed)), Action::ProbeDevices(_)));
    // Every volume is attached here, but one device has no path yet: list again.
    assert_eq!(d2.step(Event::Present(vec![true, false])), Action::ListVolumes);
}

#[test]
fn stable_usage_changes_nothing_twice() {
    let vols = vec![bsu("vol-1", 10, true, "/dev/xvdb"), bsu("vol-2", 12, true, "/dev/xvdc")];
    for _ in 0..2 {
        let mut d = drive(DriveTarget::Online);
        walk_to_usage(&mut d, &vols);
        let a = d.step(Event::Usage(usage_report(&vols), Some(stats(22, 11))));
        assert_eq!(a, Action::Finish);
    }
    let mut d = drive(DriveTarget::Online);
    walk_to_usage(&mut d, &vols);
    // Every staircase step of a complete stack is a reading or a best-effort activation;
    // running the pass twice gives the same actions.
    let mut first = Vec::new();
    let mut second = Vec::new();
    for out in [&mut first, &mut second] {
        let mut d = drive(DriveTarget::Online);
        out.push(walk_to_usage(&mut d, &vols));
        out.push(d.step(Event::Usage(usage_report(&vols), Some(stats(22, 11)))));
    }
    assert_eq!(first, second);
}

#[test]
fn rolling_grow_at_the_cap() {
    let mut c = config(DriveTarget::Online);
    c.max_bsu_count = Some(2);
    let mut d = drive_with(c.clone());
    let vols = vec![bsu("vol-1", 10, true, "/dev/xvdb"), bsu("vol-2", 12, true, "/dev/xvdc")];
    walk_to_usage(&mut d, &vols);
    let st = FsStats { size: 22 * GIB, used: 20 * GIB, available: 12 * GIB };
    assert_eq!(d.plan(&st), Plan::RemoveSmallest);
    let a = d.step(Event::Usage(usage_report(&vols), Some(st)));
    // What is left without the 10 GiB volume (12 GiB) is below the ideal size.
    assert_eq!(run(&a)[1], s(&["lvm", "lvreduce", "--yes", "--size", "12884901888B", LVP]));
    assert_eq!(run_lenient(&d.step(Event::Done)), s(&["lvm", "pvmove", "/dev/xvdb"]));

    // Next pass: one volume left and still full: add a larger one.
    let mut d = drive_with(c);
    let left = vec![bsu("vol-2", 12, true, "/dev/xvdc")];
    walk_to_usage(&mut d, &left);
    match d.step(Event::Usage(usage_report(&left), Some(stats(12, 11)))) {
        Action::Create(r) => assert_eq!(r.size_gib, 15),
        other => panic!("{:?}", other),
    }
}

#[test]
fn size_cap_stops_growth() {
    let mut c = config(DriveTarget::Online);
    c.max_total_size_gib = Some(10);
    let mut d = drive_with(c);
    let vols = vec![bsu("vol-1", 10, true, "/dev/xvdb")];
    walk_to_usage(&mut d, &vols);
    assert_eq!(d.plan(&stats(10, 9)), Plan::Bounded);
    assert_eq!(d.step(Event::Usage(usage_report(&vols), Some(stats(10, 9)))), Action::Finish);
}

#[test]
fn minimal_drive_is_left_alone() {
    let mut d = drive(DriveTarget::Online);
    let vols = vec![bsu("vol-1", 10, true, "/dev/xvdb")];
    walk_to_usage(&mut d, &vols);
    assert_eq!(d.step(Event::Usage(usage_report(&vols), Some(stats(10, 1)))), Action::Finish);
}

#[test]
fn single_oversized_volume_gets_an_ideal_one() {
    let mut d = drive(DriveTarget::Online);
    let vols = vec![bsu("vol-1", 40, true, "/dev/xvdb")];
    walk_to_usage(&mut d, &vols);
    // ceil(10 GiB / 62.5%) = 16 GiB.
    assert_eq!(d.plan(&stats(40, 10)), Plan::Grow(16));
}

#[test]
fn too_many_volumes_removes_the_smallest() {
    let mut c = config(DriveTarget::Online);
    c.max_bsu_count = Some(2);
    let mut d = drive_with(c);
    let vols = vec![
        bsu("vol-1", 12, true, "/dev/xvdb"),
        bsu("vol-2", 10, true, "/dev/xvdc"),
        bsu("vol-3", 14, true, "/dev/xvdd"),
    ];
    walk_to_usage(&mut d, &vols);
    assert_eq!(d.plan(&stats(36, 18)), Plan::RemoveSmallest);
    assert_eq!(d.smallest_bsu().unwrap().id, "vol-2");
    assert_eq!(d.largest_bsu().unwrap().id, "vol-3");
    assert!(d.is_drive_reached_max_attached_bsu());
}

#[test]
fn offline_unmounts_and_detaches() {
    let mut d = drive(DriveTarget::Offline);
    assert_eq!(d.reconcile(), Action::ReadMount(LVP.to_string()));
    assert_eq!(run(&d.step(Event::Mount(Some(MP.to_string())))), vec![s(&["umount", LVP])]);
    assert_eq!(d.step(Event::Done), Action::ReadMount(LVP.to_string()));
    match d.step(Event::Mount(None)) {
        Action::TryRun(c) => assert_eq!(words(&c), s(&["lvchange", "-an", "data"])),
        other => panic!("{:?}", other),
    }
    match d.step(Event::Done) {
        Action::TryRun(c) => assert_eq!(words(&c), s(&["vgchange", "-an", "data"])),
        other => panic!("{:?}", other),
    }
    assert_eq!(d.step(Event::Done), Action::ListVolumes);
    let mut elsewhere = bsu("vol-3", 10, false, "/dev/xvdd");
    elsewhere.vm_id = Some("i-other".to_string());
    // vol-2 is attached here although the cloud gives it no device path: detached too.
    let vols = vec![bsu("vol-1", 10, true, "/dev/xvdb"), bsu("vol-2", 12, true, ""), elsewhere.clone()];
    match d.step(Event::Volumes(vols)) {
        Action::Detach(v) => assert_eq!(v.iter().map(|b| b.id.as_str()).collect::<Vec<_>>(), vec!["vol-1", "vol-2"]),
        other => panic!("{:?}", other),
    }
    assert_eq!(d.step(Event::Done), Action::ListVolumes);
    let detached = vec![bsu("vol-1", 10, false, "/dev/xvdb"), bsu("vol-2", 12, false, "/dev/xvdc"), elsewhere];
    match d.step(Event::Volumes(detached)) {
        Action::TryRun(c) => assert_eq!(words(&c), s(&["vgscan"])),
        other => panic!("{:?}", other),
    }
    assert_eq!(d.step(Event::Done), Action::Finish);
    assert_eq!(d.bsu_count(), 3);
}

#[test]
fn delete_removes_all_three_volumes() {
    let mut d = drive(DriveTarget::Delete);
    assert_eq!(d.reconcile(), Action::ReadMount(LVP.to_string()));
    assert!(matches!(d.step(Event::Mount(None)), Action::TryRun(_)));
    assert!(matches!(d.step(Event::Done), Action::TryRun(_)));
    assert_eq!(d.step(Event::Done), Action::ListVolumes);
    let vols = vec![
        bsu("vol-1", 10, false, "/dev/xvdb"),
        bsu("vol-2", 12, false, "/dev/xvdc"),
        bsu("vol-3", 14, false, "/dev/xvdd"),
    ];
    assert!(matches!(d.step(Event::Volumes(vols)), Action::TryRun(_)));
    match d.step(Event::Done) {
        Action::Delete(v) => assert_eq!(v.iter().map(|b| b.id.as_str()).collect::<Vec<_>>(), vec!["vol-1", "vol-2", "vol-3"]),
        other => panic!("{:?}", other),
    }
    assert_eq!(d.step(Event::Done), Action::Finish);

    // A later delete finds nothing left and is done at once.
    let mut d = drive(DriveTarget::Delete);
    d.reconcile();
    d.step(Event::Mount(None));
    d.step(Event::Done);
    d.step(Event::Done);
    assert_eq!(d.step(Event::Volumes(vec![])), Action::Finish);
}

#[test]
fn online_after_delete_starts_from_one_volume() {
    let mut c = config(DriveTarget::Online);
    c.initial_size_gib = Some(20);
    let mut d = drive_with(c);
    d.reconcile();
    d.step(Event::Done);
    assert_eq!(d.step(Event::Volumes(vec![])), Action::ProbeDevices(vec![]));
    match d.step(Event::Present(vec![])) {
        Action::Create(r) => assert_eq!(r.size_gib, 20),
        other => panic!("{:?}", other),
    }
}

#[test]
fn volumes_attached_elsewhere_are_attached_here() {
    let mut d = drive(DriveTarget::Online);
    d.reconcile();
    d.step(Event::Done);
    let mut elsewhere = bsu("vol-2", 12, false, "/dev/xvdc");
    elsewhere.vm_id = Some("i-other".to_string());
    let vols = vec![bsu("vol-1", 10, true, "/dev/xvdb"), elsewhere];
    d.step(Event::Volumes(vols));
    match d.step(Event::Present(vec![true, true])) {
        Action::Attach(v) => assert_eq!(v.iter().map(|b| b.id.as_str()).collect::<Vec<_>>(), vec!["vol-2"]),
        other => panic!("{:?}", other),
    }
}

#[test]
fn large_scale_factor_is_accepted() {
    let mut c = config(DriveTarget::Online);
    c.disk_scale_factor_perc = Some(150);
    c.max_used_space_perc = Some(120);
    let mut d = drive_with(c);
    let vols = vec![bsu("vol-1", 20, true, "/dev/xvdb")];
    walk_to_usage(&mut d, &vols);
    // Nothing is left of 20 GiB shrunk by 150%: the first size wins.
    assert_eq!(d.smaller_bsu_size_gib(), 10);
    // 20 GiB grown by 150%.
    assert_eq!(d.larger_bsu_size_gib(), 50);
    // Use never reaches 120% of the size: no growth.
    assert!(!d.is_drive_low_space_left(&stats(20, 20)));
}

#[test]
fn unattached_volumes_are_attached_first() {
    let mut d = drive(DriveTarget::Online);
    d.reconcile();
    d.step(Event::Done);
    let vols = vec![bsu("vol-1", 10, true, "/dev/xvdb"), bsu("vol-2", 12, false, "")];
    assert_eq!(d.step(Event::Volumes(vols)), Action::ProbeDevices(s(&["/dev/xvdb", ""])));
    match d.step(Event::Present(vec![true, false])) {
        Action::Attach(v) => assert_eq!(v.iter().map(|b| b.id.as_str()).collect::<Vec<_>>(), vec!["vol-2"]),
        other => panic!("{:?}", other),
    }
    assert_eq!(d.step(Event::Done), Action::ListVolumes);
}

#[test]
fn failures_end_the_reconcile() {
    // A step with no reconcile under way.
    let mut d = drive(DriveTarget::Online);
    assert_eq!(d.step(Event::Done), Action::Fail(DriveError::UnexpectedEvent));
    // An answer that does not fit the question.
    d.reconcile();
    assert_eq!(d.step(Event::Folder(true)), Action::Fail(DriveError::UnexpectedEvent));
    assert!(d.is_idle());
    // A presence reading of the wrong length.
    d.reconcile();
    d.step(Event::Done);
    d.step(Event::Volumes(vec![bsu("vol-1", 10, true, "/dev/xvdb")]));
    assert_eq!(d.step(Event::Present(vec![])), Action::Fail(DriveError::UnexpectedEvent));

    let vols = vec![bsu("vol-1", 10, true, "/dev/xvdb")];
    let mut d = drive(DriveTarget::Online);
    d.reconcile();
    d.step(Event::Done);
    d.step(Event::Volumes(vols.clone()));
    d.step(Event::Present(vec![true]));
    // The device was unassigned, then went to another group: nothing to create the group on.
    assert!(matches!(d.step(Event::Report(vec![free_entry(&["/dev/xvdb"])])), Action::TryRun(_)));
    assert_eq!(d.step(Event::Done), Action::ReadLvm);
    let mut other = vg_entry(&["/dev/xvdb"], 10 * GIB, None);
    other.vg[0].vg_name = "other".to_string();
    assert_eq!(d.step(Event::Report(vec![other])), Action::Fail(DriveError::NoFreePv));

    // Sizes: group smaller than its logical volume, then an unreadable size.
    let mut d = drive(DriveTarget::Online);
    walk_to_lv_sizes(&mut d, &vols);
    let small = vec![vg_entry(&["/dev/xvdb"], 9 * GIB, Some(10 * GIB))];
    assert_eq!(d.step(Event::Report(small)), Action::Fail(DriveError::VgSmallerThanLv));
    let mut d = drive(DriveTarget::Online);
    walk_to_lv_sizes(&mut d, &vols);
    let mut bad = vg_entry(&["/dev/xvdb"], 9 * GIB, Some(10 * GIB));
    bad.vg[0].vg_size = "lots".to_string();
    assert_eq!(d.step(Event::Report(vec![bad])), Action::Fail(DriveError::Lvm(LvmError::BadSize)));
    // Larger group: extend the logical volume.
    let mut d = drive(DriveTarget::Online);
    walk_to_lv_sizes(&mut d, &vols);
    let big = vec![vg_entry(&["/dev/xvdb"], 11 * GIB, Some(10 * GIB))];
    assert_eq!(run(&d.step(Event::Report(big))), vec![s(&["lvm", "lvextend", "--extents", "+100%FREE", LVP])]);
    // The sizes are read again after the extension.
    assert_eq!(d.step(Event::Done), Action::ReadLvm);
    let fitted = vec![vg_entry(&["/dev/xvdb"], 11 * GIB, Some(11 * GIB))];
    assert_eq!(d.step(Event::Report(fitted)), Action::ReadHead(LVP.to_string()));

    // Mount and usage checks.
    let mut d = drive(DriveTarget::Online);
    walk_to_usage(&mut d, &vols);
    let bigger_fs = FsStats { size: 11 * GIB, used: GIB, available: 10 * GIB };
    assert_eq!(d.step(Event::Usage(usage_report(&vols), Some(bigger_fs))), Action::Fail(DriveError::FsLargerThanLv));
    let mut d = drive(DriveTarget::Online);
    walk_to_usage(&mut d, &vols);
    assert_eq!(d.step(Event::Usage(usage_report(&vols), None)), Action::Fail(DriveError::NoStats));
    let mut d = drive(DriveTarget::Online);
    walk_to_usage(&mut d, &vols);
    let smaller_fs = FsStats { size: 9 * GIB, used: GIB, available: 8 * GIB };
    assert_eq!(run(&d.step(Event::Usage(usage_report(&vols), Some(smaller_fs)))), vec![s(&["btrfs", "filesystem", "resize", "max", MP])]);
    let mut d = drive(DriveTarget::Offline);
    d.reconcile();
    assert_eq!(d.step(Event::Mount(Some("/elsewhere".to_string()))), Action::Fail(DriveError::Fs(FsError::MountedElsewhere)));
}

fn walk_to_lv_sizes(d: &mut Drive, vols: &[Bsu]) {
    let report = vec![vg_entry(&["/dev/xvdb"], 10 * GIB, Some(10 * GIB))];
    d.reconcile();
    d.step(Event::Done);
    d.step(Event::Volumes(vols.to_vec()));
    d.step(Event::Present(vec![true; vols.len()]));
    d.step(Event::Report(report.clone()));
    d.step(Event::Done);
    d.step(Event::Report(report.clone()));
    d.step(Event::Done);
    d.step(Event::Report(report.clone()));
    assert_eq!(d.step(Event::Done), Action::ReadLvm);
}

#[test]
fn missing_group_entry_fails_the_lv_check() {
    let vols = vec![bsu("vol-1", 10, true, "/dev/xvdb")];
    let mut d = drive(DriveTarget::Online);
    d.reconcile();
    d.step(Event::Done);
    d.step(Event::Volumes(vols));
    d.step(Event::Present(vec![true]));
    let report = vec![vg_entry(&["/dev/xvdb"], 10 * GIB, None)];
    d.step(Event::Report(report.clone()));
    d.step(Event::Done);
    d.step(Event::Report(report.clone()));
    d.step(Event::Done);
    d.step(Event::Report(report));
    d.step(Event::Done);
    assert_eq!(d.step(Event::Report(vec![])), Action::Fail(DriveError::LvmNotFound));
}

#[test]
fn stop_ends_the_reconcile() {
    let mut d = drive(DriveTarget::Online);
    d.reconcile();
    assert_eq!(d.early_exit(None), Ok(()));
    assert!(!d.exit_requested());
    assert_eq!(d.early_exit(Some(DriveCmd::Stop)), Err(DriveError::EarlyExit));
    assert!(d.exit_requested());
    assert!(d.is_idle());
}

#[test]
fn clock_driven_cooldown() {
    let mut d = drive(DriveTarget::Online);
    let t = d.mark_reconciled_now();
    let (due, now) = d.is_due_now();
    assert_eq!(due, now - t > 30);
    let (made, at) = Drive::new_now(config(DriveTarget::Online), VM.to_string());
    let made = made.unwrap();
    assert!(!made.is_due(at));
    assert!(made.is_due(at + 1));
    assert!(!d.is_drive_reached_max_attached_bsu_minus_one());
}
