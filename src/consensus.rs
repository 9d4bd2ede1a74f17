//! Network upgrades, consensus branches and the transaction version they call for.
use vstd::prelude::*;

verus! {

/// The number of blocks after the target height during which a transaction stays valid.
pub const DEFAULT_TX_EXPIRY_DELTA: u32 = 20;

/// The activation heights of the network upgrades of one network; `None` where an
/// upgrade is not scheduled.
#[derive(Clone, Copy, Debug, PartialEq, Eq, Structural)]
pub struct Parameters {
    pub overwinter: Option<u32>,
    pub sapling: Option<u32>,
    pub blossom: Option<u32>,
    pub heartwood: Option<u32>,
    pub canopy: Option<u32>,
    pub nu5: Option<u32>,
}

/// The consensus rule sets, in order of activation.
#[derive(Clone, Copy, Debug, PartialEq, Eq, Structural)]
pub enum BranchId {
    Sprout,
    Overwinter,
    Sapling,
    Blossom,
    Heartwood,
    Canopy,
    Nu5,
}

/// Transaction format versions.
#[derive(Clone, Copy, Debug, PartialEq, Eq, Structural)]
pub enum TxVersion {
    Sprout(u32),
    Overwinter,
    Sapling,
    Zip225,
}

/// Whether an upgrade with the given activation height is active at `h`.
pub open spec fn active(at: Option<u32>, h: u32) -> bool {
    match at {
        Some(a) => a <= h,
        None => false,
    }
}

/// The branch of the latest upgrade active at `h`.
pub open spec fn branch_for_height(p: Parameters, h: u32) -> BranchId {
    if active(p.nu5, h) {
        BranchId::Nu5
    } else if active(p.canopy, h) {
        BranchId::Canopy
    } else if active(p.heartwood, h) {
        BranchId::Heartwood
    } else if active(p.blossom, h) {
        BranchId::Blossom
    } else if active(p.sapling, h) {
        BranchId::Sapling
    } else if active(p.overwinter, h) {
        BranchId::Overwinter
    } else {
        BranchId::Sprout
    }
}

/// The smallest transaction version that a branch accepts.
pub open spec fn version_for_branch(b: BranchId) -> TxVersion {
    match b {
        BranchId::Sprout => TxVersion::Sprout(2),
        BranchId::Overwinter => TxVersion::Overwinter,
        BranchId::Nu5 => TxVersion::Zip225,
        _ => TxVersion::Sapling,
    }
}

fn is_active(at: Option<u32>, h: u32) -> (r: bool)
    ensures
        r == active(at, h),
{
    match at {
        Some(a) => a <= h,
        None => false,
    }
}

impl Parameters {
    /// The upgrade schedule of the test network.
    pub fn test_network() -> (r: Parameters)
        ensures
            r.sapling == Some(280_000u32),
            r.overwinter == Some(207_500u32),
            r.blossom == Some(584_000u32),
            r.heartwood == Some(903_800u32),
            r.canopy == Some(1_028_500u32),
            r.nu5 == Some(1_599_200u32),
    {
        Parameters {
            overwinter: Some(207_500),
            sapling: Some(280_000),
            blossom: Some(584_000),
            heartwood: Some(903_800),
            canopy: Some(1_028_500),
            nu5: Some(1_599_200),
        }
    }
}

impl BranchId {
    /// The consensus branch in force at height `h`.
    pub fn for_height(p: &Parameters, h: u32) -> (r: BranchId)
        ensures
            r == branch_for_height(*p, h),
    {
        if is_active(p.nu5, h) {
            BranchId::Nu5
        } else if is_active(p.canopy, h) {
            BranchId::Canopy
        } else if is_active(p.heartwood, h) {
            BranchId::Heartwood
        } else if is_active(p.blossom, h) {
            BranchId::Blossom
        } else if is_active(p.sapling, h) {
            BranchId::Sapling
        } else if is_active(p.overwinter, h) {
            BranchId::Overwinter
        } else {
            BranchId::Sprout
        }
    }
}

impl TxVersion {
    /// The minimum transaction version compatible with a branch.
    pub fn suggested_for_branch(b: BranchId) -> (r: TxVersion)
        ensures
            r == version_for_branch(b),
    {
        match b {
            BranchId::Sprout => TxVersion::Sprout(2),
            BranchId::Overwinter => TxVersion::Overwinter,
            BranchId::Nu5 => TxVersion::Zip225,
            _ => TxVersion::Sapling,
        }
    }
}

} // verus!
