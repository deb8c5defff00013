//! The btrfs filesystem on a drive's logical volume.
use vstd::prelude::*;
use crate::utils::{command_of, decimal, decimal_string, CommandLine};

verus! {

/// Whether the first bytes of a device look like a filesystem: any non-zero byte.
pub open spec fn seems_formatted(head: Seq<u8>) -> bool {
    exists|i: int| 0 <= i < head.len() && head[i] != 0
}

/// Decides from the leading bytes read off a device whether it holds a filesystem.
pub fn device_seems_formated(head: &[u8]) -> (r: bool)
    ensures
        r == seems_formatted(head@),
{
    let mut i: usize = 0;
    while i < head.len()
        invariant
            i <= head@.len(),
            forall|j: int| 0 <= j < i ==> head@[j] == 0,
        decreases head@.len() - i,
    {
        if head[i] != 0 {
            return true;
        }
        i = i + 1;
    }
    false
}

/// Creates a btrfs filesystem on `device_path`.
pub fn format(device_path: &String) -> (r: CommandLine)
    ensures
        r.words() == seq!["mkfs.btrfs"@, device_path@],
{
    let r = command_of("mkfs.btrfs", &[device_path.as_str()]);
    assert(r.words() =~= seq!["mkfs.btrfs"@, device_path@]);
    r
}

/// Mounts `device_path` at `mount_target`.
pub fn mount(device_path: &String, mount_target: &String) -> (r: CommandLine)
    ensures
        r.words() == seq!["mount"@, device_path@, mount_target@],
{
    let r = command_of("mount", &[device_path.as_str(), mount_target.as_str()]);
    assert(r.words() =~= seq!["mount"@, device_path@, mount_target@]);
    r
}

/// Unmounts `device_path`.
pub fn umount(device_path: &String) -> (r: CommandLine)
    ensures
        r.words() == seq!["umount"@, device_path@],
{
    let r = command_of("umount", &[device_path.as_str()]);
    assert(r.words() =~= seq!["umount"@, device_path@]);
    r
}

/// Grows the filesystem mounted at `mount_target` over its whole device.
pub fn extend_fs_max(mount_target: &String) -> (r: CommandLine)
    ensures
        r.words() == seq!["btrfs"@, "filesystem"@, "resize"@, "max"@, mount_target@],
{
    let r = command_of("btrfs", &["filesystem", "resize", "max", mount_target.as_str()]);
    assert(r.words() =~= seq!["btrfs"@, "filesystem"@, "resize"@, "max"@, mount_target@]);
    r
}

/// Resizes the filesystem mounted at `mount_path` to `new_size_bytes` bytes.
pub fn resize(mount_path: &String, new_size_bytes: u64) -> (r: CommandLine)
    ensures
        r.words() == seq!["btrfs"@, "filesystem"@, "resize"@, decimal(new_size_bytes as nat), mount_path@],
{
    let size = decimal_string(new_size_bytes);
    let r = command_of("btrfs", &["filesystem", "resize", size.as_str(), mount_path.as_str()]);
    assert(r.words() =~= seq!["btrfs"@, "filesystem"@, "resize"@, decimal(new_size_bytes as nat), mount_path@]);
    r
}

/// Why the mount state of a device is not the one expected.
#[derive(Clone, Copy, Debug, PartialEq, Eq, Structural)]
pub enum FsError {
    /// The device is mounted, but not at the drive's mount path.
    MountedElsewhere,
}

/// Whether a device is mounted at `mount_target`, from where the mount table says it is
/// mounted (`None`: not mounted). Mounted elsewhere is an error.
pub fn is_mounted(mounted_at: &Option<String>, mount_target: &String) -> (r: Result<bool, FsError>)
    ensures
        match mounted_at {
            None => r == Ok::<bool, FsError>(false),
            Some(dest) => if dest@ == mount_target@ {
                r == Ok::<bool, FsError>(true)
            } else {
                r == Err::<bool, FsError>(FsError::MountedElsewhere)
            },
        },
{
    match mounted_at {
        None => Ok(false),
        Some(dest) => if *dest == *mount_target {
            Ok(true)
        } else {
            Err(FsError::MountedElsewhere)
        },
    }
}

/// Space figures of a mounted filesystem, in bytes.
#[derive(Clone, Copy, Debug, PartialEq, Eq, Structural)]
pub struct FsStats {
    pub size: u64,
    pub used: u64,
    pub available: u64,
}

/// A mounted filesystem and its space figures, as the mount table gives them.
pub struct MountStats {
    pub fs: String,
    pub stats: FsStats,
}

/// The space figures of the first mount of `device_path` in `mounts`.
pub open spec fn stats_of(mounts: Seq<MountStats>, device_path: Seq<char>) -> Option<FsStats>
    decreases mounts.len(),
{
    if mounts.len() == 0 {
        None
    } else if mounts[0].fs@ == device_path {
        Some(mounts[0].stats)
    } else {
        stats_of(mounts.drop_first(), device_path)
    }
}

/// Picks the space figures of `device_path` out of the mount table.
pub fn get_stats(mounts: &Vec<MountStats>, device_path: &String) -> (r: Option<FsStats>)
    ensures
        r == stats_of(mounts@, device_path@),
{
    let mut i: usize = 0;
    assert(mounts@.subrange(0, mounts@.len() as int) =~= mounts@);
    while i < mounts.len()
        invariant
            i <= mounts@.len(),
            stats_of(mounts@, device_path@) == stats_of(mounts@.subrange(i as int, mounts@.len() as int), device_path@),
        decreases mounts@.len() - i,
    {
        let rest = Ghost(mounts@.subrange(i as int, mounts@.len() as int));
        assert(rest@[0] == mounts@[i as int]);
        if mounts[i].fs == *device_path {
            return Some(mounts[i].stats);
        }
        assert(rest@.drop_first() =~= mounts@.subrange(i + 1, mounts@.len() as int));
        i = i + 1;
    }
    None
}

} // verus!
