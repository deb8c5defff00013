use bsud::config::{region, ConfigFileDrive, DiskType, DriveTarget};
use bsud::fs::{
    device_seems_formated, extend_fs_max, get_stats, is_mounted, mount, resize, umount,
    FsError, FsStats, MountStats,
};
use bsud::lvm::{
    create_lv, extend_vg, get_lv_size_bytes, get_report, get_report_with_no_vg,
    get_vg_size_bytes, init_pv, lv_activate, lv_extend_full, lv_path, lv_reduce, parse_size,
    pv_move, pv_move_no_arg, pv_remove, vg_activate, vg_create, vg_reduce, vg_scan, Lv, Lvm,
    LvmError, Pv, Vg,
};
use bsud::utils::{bytes_to_gib_rounded, cmd_str, decimal_string, gib_to_bytes, CommandLine};

const GIB: u64 = 1024 * 1024 * 1024;

fn words(c: &CommandLine) -> Vec<String> {
    let mut w = vec![c.program.clone()];
    w.extend(c.args.iter().cloned());
    w
}

fn s(v: &[&str]) -> Vec<String> {
    v.iter().map(|x| x.to_string()).collect()
}

fn entry(vg_name: Option<(&str, &str)>, pvs: &[&str], lv_size: Option<&str>) -> Lvm {
    let mut l = Lvm::default();
    if let Some((name, size)) = vg_name {
        let mut vg = Vg::default();
        vg.vg_name = name.to_string();
        vg.vg_size = size.to_string();
        l.vg.push(vg);
    }
    for p in pvs {
        let mut pv = Pv::default();
        pv.pv_name = p.to_string();
        l.pv.push(pv);
    }
    if let Some(size) = lv_size {
        let mut lv = Lv::default();
        lv.lv_name = "bsud".to_string();
        lv.lv_size = size.to_string();
        l.lv.push(lv);
    }
    l
}

#[test]
fn gib_conversions() {
    assert_eq!(gib_to_bytes(10), 10 * GIB);
    assert_eq!(gib_to_bytes(0), 0);
    assert_eq!(bytes_to_gib_rounded(0), 0);
    assert_eq!(bytes_to_gib_rounded(1), 1);
    assert_eq!(bytes_to_gib_rounded(GIB), 1);
    assert_eq!(bytes_to_gib_rounded(GIB + 1), 2);
    assert_eq!(bytes_to_gib_rounded(22 * GIB), 22);
}

#[test]
fn command_text() {
    assert_eq!(cmd_str("lvm", &s(&["pvcreate", "/dev/xvdb"])), "lvm pvcreate /dev/xvdb");
    assert_eq!(cmd_str("vgscan", &vec![]), "vgscan");
    assert_eq!(decimal_string(0), "0");
    assert_eq!(decimal_string(1234), "1234");
    assert_eq!(decimal_string(u64::MAX), "18446744073709551615");
}

#[test]
fn lv_path_doubles_dashes() {
    assert_eq!(lv_path("data"), "/dev/mapper/data-bsud");
    assert_eq!(lv_path("my-drive"), "/dev/mapper/my--drive-bsud");
    assert_eq!(lv_path("a--b"), "/dev/mapper/a----b-bsud");
}

#[test]
fn size_strings() {
    assert_eq!(parse_size("1024B"), Some(1024));
    assert_eq!(parse_size("0B"), Some(0));
    assert_eq!(parse_size("18446744073709551615B"), Some(u64::MAX));
    assert_eq!(parse_size("18446744073709551616B"), None);
    assert_eq!(parse_size("B"), None);
    assert_eq!(parse_size(""), None);
    assert_eq!(parse_size("12a4B"), None);
}

#[test]
fn report_queries() {
    let free = entry(None, &["/dev/xvdc"], None);
    let data = entry(Some(("data", "21474836480B")), &["/dev/xvdb"], Some("10737418240B"));
    let other = entry(Some(("other", "5B")), &["/dev/xvdd"], None);
    let reports = vec![other.clone(), free.clone(), data.clone()];
    assert_eq!(get_report(&reports, &"data".to_string()), Some(&data));
    assert_eq!(get_report(&reports, &"nope".to_string()), None);
    assert_eq!(get_report_with_no_vg(&reports), Some(&free));
    assert_eq!(get_report_with_no_vg(&vec![data.clone()]), None);
    assert_eq!(data.devices(), s(&["/dev/xvdb"]));
    assert_eq!(get_vg_size_bytes(&reports, &"data".to_string()), Ok(20 * GIB));
    assert_eq!(get_lv_size_bytes(&reports, &"data".to_string()), Ok(10 * GIB));
    assert_eq!(get_vg_size_bytes(&reports, &"nope".to_string()), Err(LvmError::NoReport));
    assert_eq!(get_lv_size_bytes(&reports, &"other".to_string()), Err(LvmError::NoLv));
    let bad = entry(Some(("bad", "xB")), &[], None);
    assert_eq!(get_vg_size_bytes(&vec![bad], &"bad".to_string()), Err(LvmError::BadSize));
}

#[test]
fn lvm_command_lines() {
    let vg = "data".to_string();
    let dev = "/dev/xvdb".to_string();
    assert_eq!(words(&init_pv(&dev)), s(&["lvm", "pvcreate", "/dev/xvdb"]));
    assert_eq!(words(&vg_create(&vg, &dev)), s(&["lvm", "vgcreate", "--alloc", "normal", "data", "/dev/xvdb"]));
    assert_eq!(words(&vg_activate(true, &vg)), s(&["vgchange", "-ay", "data"]));
    assert_eq!(words(&vg_activate(false, &vg)), s(&["vgchange", "-an", "data"]));
    assert_eq!(words(&extend_vg(&vg, &dev)), s(&["lvm", "vgextend", "data", "/dev/xvdb"]));
    assert_eq!(words(&create_lv(&vg)), s(&["lvm", "lvcreate", "--extents", "100%FREE", "-n", "bsud", "data"]));
    let lvp = lv_path("data");
    assert_eq!(words(&lv_extend_full(&lvp)), s(&["lvm", "lvextend", "--extents", "+100%FREE", "/dev/mapper/data-bsud"]));
    assert_eq!(words(&lv_activate(true, &vg)), s(&["lvchange", "-ay", "data"]));
    assert_eq!(words(&lv_activate(false, &vg)), s(&["lvchange", "-an", "data"]));
    assert_eq!(words(&vg_scan()), s(&["vgscan"]));
    assert_eq!(words(&pv_move(&dev)), s(&["lvm", "pvmove", "/dev/xvdb"]));
    assert_eq!(words(&pv_move_no_arg()), s(&["lvm", "pvmove"]));
    assert_eq!(words(&lv_reduce(&lvp, 1024)), s(&["lvm", "lvreduce", "--yes", "--size", "1024B", "/dev/mapper/data-bsud"]));
    assert_eq!(words(&vg_reduce(&vg, &dev)), s(&["lvm", "vgreduce", "data", "/dev/xvdb"]));
    assert_eq!(words(&pv_remove(&dev)), s(&["lvm", "pvremove", "/dev/xvdb"]));
}

#[test]
fn fs_command_lines() {
    let dev = "/dev/mapper/data-bsud".to_string();
    let mp = "/mnt/data".to_string();
    assert_eq!(words(&bsud::fs::format(&dev)), s(&["mkfs.btrfs", "/dev/mapper/data-bsud"]));
    assert_eq!(words(&mount(&dev, &mp)), s(&["mount", "/dev/mapper/data-bsud", "/mnt/data"]));
    assert_eq!(words(&umount(&dev)), s(&["umount", "/dev/mapper/data-bsud"]));
    assert_eq!(words(&extend_fs_max(&mp)), s(&["btrfs", "filesystem", "resize", "max", "/mnt/data"]));
    assert_eq!(words(&resize(&mp, 10 * GIB)), s(&["btrfs", "filesystem", "resize", "10737418240", "/mnt/data"]));
}

#[test]
fn formatted_devices() {
    assert!(!device_seems_formated(&[]));
    assert!(!device_seems_formated(&[0; 4096]));
    let mut head = vec![0u8; 4096];
    head[4000] = 7;
    assert!(device_seems_formated(&head));
}

#[test]
fn mount_states() {
    let mp = "/mnt/data".to_string();
    assert_eq!(is_mounted(&None, &mp), Ok(false));
    assert_eq!(is_mounted(&Some("/mnt/data".to_string()), &mp), Ok(true));
    assert_eq!(is_mounted(&Some("/mnt/other".to_string()), &mp), Err(FsError::MountedElsewhere));
}

#[test]
fn stats_lookup() {
    let a = FsStats { size: 10, used: 5, available: 5 };
    let b = FsStats { size: 20, used: 1, available: 19 };
    let mounts = vec![
        MountStats { fs: "/dev/sda1".to_string(), stats: a },
        MountStats { fs: "/dev/mapper/data-bsud".to_string(), stats: b },
    ];
    assert_eq!(get_stats(&mounts, &"/dev/mapper/data-bsud".to_string()), Some(b));
    assert_eq!(get_stats(&mounts, &"/dev/none".to_string()), None);
}

#[test]
fn config_names() {
    assert_eq!(DriveTarget::from_str("online"), Ok(DriveTarget::Online));
    assert_eq!(DriveTarget::from_str("OffLine"), Ok(DriveTarget::Offline));
    assert_eq!(DriveTarget::from_str("DELETE"), Ok(DriveTarget::Delete));
    assert_eq!(DriveTarget::from_str("gone"), Err(()));
    assert_eq!(DriveTarget::Offline.to_string(), "offline");
    assert_eq!(DiskType::from_str("IO1"), Ok(DiskType::Io1));
    assert_eq!(DiskType::from_str("gp3"), Err(()));
    assert_eq!(DiskType::Standard.to_string(), "standard");
    assert_eq!(DiskType::Gp2.to_string(), "gp2");
    assert_eq!(region(&"eu-west-2a".to_string()), "eu-west-2");
    assert_eq!(region(&String::new()), "");
    let _ = ConfigFileDrive {
        name: "data".to_string(),
        target: DriveTarget::Online,
        mount_path: "/mnt/data".to_string(),
        disk_type: None,
        disk_iops_per_gib: None,
        max_total_size_gib: None,
        initial_size_gib: None,
        max_bsu_count: None,
        max_used_space_perc: None,
        min_used_space_perc: None,
        disk_scale_factor_perc: None,
    };
}

#[test]
fn group_and_volume_lookup() {
    let data = entry(Some(("data", "20B")), &["/dev/xvdb"], Some("10B"));
    let reports = vec![entry(None, &[], None), data.clone()];
    assert_eq!(bsud::lvm::get_vg(&reports, &"data".to_string()).map(|v| v.vg_name.clone()), Ok("data".to_string()));
    assert_eq!(bsud::lvm::get_lv(&reports, &"data".to_string()).map(|l| l.lv_size.clone()), Ok("10B".to_string()));
    assert_eq!(bsud::lvm::get_vg(&reports, &"x".to_string()).err(), Some(LvmError::NoReport));
    let no_lv = vec![entry(Some(("data", "20B")), &[], None)];
    assert_eq!(bsud::lvm::get_lv(&no_lv, &"data".to_string()).err(), Some(LvmError::NoLv));
}
