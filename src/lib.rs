//! Elastic block-storage drives: a per-host reconciler that grows and shrinks
//! a btrfs filesystem on top of LVM and cloud block volumes.
//!
//! The library holds the logic (decisions, parsing, command lines, policy);
//! the caller performs the I/O that the decisions ask for.
use vstd::prelude::*;

pub mod bsu;
pub mod config;
pub mod drive;
pub mod fs;
pub mod lemmas;
pub mod lvm;
pub mod utils;

verus! {

} // verus!
