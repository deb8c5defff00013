//! Drive configuration: targets, disk types and the per-drive settings.
use vstd::prelude::*;
use crate::bsu::str_eq;
use crate::utils::owned;

verus! {

/// What a drive should become.
#[derive(Clone, Copy, Debug, PartialEq, Eq, Structural)]
pub enum DriveTarget {
    /// Mounted and sized to its use.
    Online,
    /// Unmounted and detached from this machine; volumes kept.
    Offline,
    /// Offline, then every volume deleted.
    Delete,
}

/// Cloud volume types.
#[derive(Clone, Copy, Debug, PartialEq, Eq, Structural)]
pub enum DiskType {
    Standard,
    Gp2,
    Io1,
}

/// What `str::to_lowercase` makes of a text.
pub uninterp spec fn lower_of(s: Seq<char>) -> Seq<char>;

/// Relies on `str::to_lowercase`: its result depends on the characters alone.
#[verifier::external_body]
fn lowercase(s: &str) -> (r: String)
    ensures
        r@ == lower_of(s@),
{
    s.to_lowercase()
}

/// The target a lower-case name stands for.
pub open spec fn target_named(s: Seq<char>) -> Option<DriveTarget> {
    if s == "online"@ {
        Some(DriveTarget::Online)
    } else if s == "offline"@ {
        Some(DriveTarget::Offline)
    } else if s == "delete"@ {
        Some(DriveTarget::Delete)
    } else {
        None
    }
}

/// The name of a target.
pub open spec fn target_name(t: DriveTarget) -> Seq<char> {
    match t {
        DriveTarget::Online => "online"@,
        DriveTarget::Offline => "offline"@,
        DriveTarget::Delete => "delete"@,
    }
}

/// The disk type a lower-case name stands for.
pub open spec fn disk_type_named(s: Seq<char>) -> Option<DiskType> {
    if s == "standard"@ {
        Some(DiskType::Standard)
    } else if s == "gp2"@ {
        Some(DiskType::Gp2)
    } else if s == "io1"@ {
        Some(DiskType::Io1)
    } else {
        None
    }
}

/// The name the cloud gives a disk type.
pub open spec fn disk_type_name(t: DiskType) -> Seq<char> {
    match t {
        DiskType::Standard => "standard"@,
        DiskType::Gp2 => "gp2"@,
        DiskType::Io1 => "io1"@,
    }
}

impl DriveTarget {
    /// The target named by `input` in lower case.
    pub fn from_lowercase(input: &str) -> (r: Option<DriveTarget>)
        ensures
            r == target_named(input@),
    {
        if str_eq(input, "online") {
            Some(DriveTarget::Online)
        } else if str_eq(input, "offline") {
            Some(DriveTarget::Offline)
        } else if str_eq(input, "delete") {
            Some(DriveTarget::Delete)
        } else {
            None
        }
    }

    /// The target named by `input`, in any case.
    pub fn from_str(input: &str) -> (r: Result<DriveTarget, ()>)
        ensures
            r == match target_named(lower_of(input@)) {
                Some(t) => Ok::<DriveTarget, ()>(t),
                None => Err::<DriveTarget, ()>(()),
            },
    {
        let lower = lowercase(input);
        match DriveTarget::from_lowercase(lower.as_str()) {
            Some(t) => Ok(t),
            None => Err(()),
        }
    }

    /// The name of this target.
    pub fn to_string(&self) -> (r: String)
        ensures
            r@ == target_name(*self),
    {
        match self {
            DriveTarget::Online => owned("online"),
            DriveTarget::Offline => owned("offline"),
            DriveTarget::Delete => owned("delete"),
        }
    }
}

impl DiskType {
    /// The disk type named by `input` in lower case.
    pub fn from_lowercase(input: &str) -> (r: Option<DiskType>)
        ensures
            r == disk_type_named(input@),
    {
        if str_eq(input, "standard") {
            Some(DiskType::Standard)
        } else if str_eq(input, "gp2") {
            Some(DiskType::Gp2)
        } else if str_eq(input, "io1") {
            Some(DiskType::Io1)
        } else {
            None
        }
    }

    /// The disk type named by `input`, in any case.
    pub fn from_str(input: &str) -> (r: Result<DiskType, ()>)
        ensures
            r == match disk_type_named(lower_of(input@)) {
                Some(t) => Ok::<DiskType, ()>(t),
                None => Err::<DiskType, ()>(()),
            },
    {
        let lower = lowercase(input);
        match DiskType::from_lowercase(lower.as_str()) {
            Some(t) => Ok(t),
            None => Err(()),
        }
    }

    /// The name the cloud gives this disk type.
    pub fn to_string(&self) -> (r: String)
        ensures
            r@ == disk_type_name(*self),
    {
        match self {
            DiskType::Standard => owned("standard"),
            DiskType::Gp2 => owned("gp2"),
            DiskType::Io1 => owned("io1"),
        }
    }
}

/// One drive of the configuration file; absent settings take their defaults.
#[derive(Clone, Debug, PartialEq)]
pub struct ConfigFileDrive {
    pub name: String,
    pub target: DriveTarget,
    pub mount_path: String,
    pub disk_type: Option<DiskType>,
    pub disk_iops_per_gib: Option<u64>,
    pub max_total_size_gib: Option<u64>,
    pub initial_size_gib: Option<u64>,
    pub max_bsu_count: Option<usize>,
    pub max_used_space_perc: Option<u64>,
    pub min_used_space_perc: Option<u64>,
    pub disk_scale_factor_perc: Option<u64>,
}

/// The drives the daemon manages.
#[derive(Clone, Debug, PartialEq)]
pub struct Config {
    pub drives: Vec<ConfigFileDrive>,
}

/// The region of a subregion: its name without the last character.
pub fn region(subregion: &String) -> (r: String)
    ensures
        subregion@.len() > 0 ==> r@ == subregion@.drop_last(),
        subregion@.len() == 0 ==> r@ == Seq::<char>::empty(),
{
    let n = subregion.as_str().unicode_len();
    if n == 0 {
        return String::new();
    }
    let r = owned(subregion.as_str().substring_char(0, n - 1));
    assert(r@ =~= subregion@.drop_last());
    r
}

} // verus!
