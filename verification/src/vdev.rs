//! The redundancy model: parity schemes and candidate array configurations.

use vstd::prelude::*;

use crate::Disk;

verus! {

/// A redundancy scheme: how many disks' worth of capacity the array
/// sacrifices so that it can tolerate that many concurrent disk failures.
#[derive(Clone, Copy, Debug, PartialEq, Eq, Structural)]
pub enum VdevType {
    Raidz1,
    Raidz2,
    Raidz3,
}

impl VdevType {
    /// The smallest member count for which the scheme is structurally valid:
    /// enough disks to hold the parity plus at least one data disk.
    pub open spec fn min_disks_spec(self) -> int {
        match self {
            VdevType::Raidz1 => 3,
            VdevType::Raidz2 => 4,
            VdevType::Raidz3 => 5,
        }
    }

    /// How many disks' worth of capacity the scheme spends on parity.
    pub open spec fn overhead_spec(self) -> int {
        match self {
            VdevType::Raidz1 => 1,
            VdevType::Raidz2 => 2,
            VdevType::Raidz3 => 3,
        }
    }

    /// The scheme's display label.
    pub open spec fn name_spec(self) -> Seq<char> {
        match self {
            VdevType::Raidz1 => "RAID-Z1"@,
            VdevType::Raidz2 => "RAID-Z2"@,
            VdevType::Raidz3 => "RAID-Z3"@,
        }
    }

    /// The minimum member-disk count of the scheme.
    pub fn min_disks(&self) -> (r: u32)
        ensures
            r == self.min_disks_spec(),
    {
        match self {
            VdevType::Raidz1 => 3,
            VdevType::Raidz2 => 4,
            VdevType::Raidz3 => 5,
        }
    }

    /// How many member disks the scheme spends on parity.
    pub(crate) fn overhead(&self) -> (r: u32)
        ensures
            r == self.overhead_spec(),
    {
        match self {
            VdevType::Raidz1 => 1,
            VdevType::Raidz2 => 2,
            VdevType::Raidz3 => 3,
        }
    }

    /// A stable human-readable label for the scheme.
    pub fn name(&self) -> (r: &'static str)
        ensures
            r@ == self.name_spec(),
    {
        match self {
            VdevType::Raidz1 => "RAID-Z1",
            VdevType::Raidz2 => "RAID-Z2",
            VdevType::Raidz3 => "RAID-Z3",
        }
    }

    /// Usable capacity of an array of `num_disks` copies of `disk_type`
    /// under this scheme, in hundredths of a terabyte.
    fn usable_storage(&self, disk_type: &Disk, num_disks: u32) -> (r: u64)
        requires
            self.min_disks_spec() <= num_disks,
            disk_type.size * (num_disks - self.overhead_spec()) <= u64::MAX,
        ensures
            r == disk_type.size * (num_disks - self.overhead_spec()),
    {
        match self {
            VdevType::Raidz1 => disk_type.size * ((num_disks - 1) as u64),
            VdevType::Raidz2 => disk_type.size * ((num_disks - 2) as u64),
            VdevType::Raidz3 => disk_type.size * ((num_disks - 3) as u64),
        }
    }
}

/// The error raised when a configuration would hold fewer member disks than
/// its scheme's minimum.
#[derive(Clone, Copy, Debug, PartialEq, Eq, Structural)]
pub enum ConfigError {
    InvalidMemberCount,
}

/// A candidate array configuration (a "vdev"): one redundancy scheme, one
/// disk model, and a member-disk count.
///
/// Invariant: `num_disks` is at least the scheme's minimum (see [`Vdev::valid`]).
#[derive(Debug, PartialEq)]
pub struct Vdev {
    pub vdev_type: VdevType,
    pub disk_type: Disk,
    pub num_disks: u32,
}

impl Clone for Vdev {
    fn clone(&self) -> (res: Self)
        ensures
            res == *self,
    {
        Vdev {
            vdev_type: self.vdev_type,
            disk_type: self.disk_type.clone(),
            num_disks: self.num_disks,
        }
    }
}

impl Vdev {
    /// Well-formedness: the member count meets the scheme's minimum.
    pub open spec fn valid(self) -> bool {
        self.vdev_type.min_disks_spec() <= self.num_disks
    }

    /// Usable capacity in hundredths of a terabyte: each member disk's
    /// capacity, counted once per member disk beyond the parity overhead.
    pub open spec fn usable_spec(self) -> int {
        self.disk_type.size * (self.num_disks - self.vdev_type.overhead_spec())
    }

    /// Raw capacity in hundredths of a terabyte, before parity overhead.
    pub open spec fn raw_spec(self) -> int {
        self.disk_type.size * self.num_disks
    }

    /// Total price of the member disks, in hundredths of a currency unit.
    pub open spec fn cost_spec(self) -> int {
        self.disk_type.cost * self.num_disks
    }

    /// Builds a configuration. The member count must meet the scheme's
    /// minimum; a violation is a caller error, not a runtime input error.
    pub fn new(vdev_type: VdevType, disk_type: Disk, num_disks: u32) -> (r: Self)
        requires
            vdev_type.min_disks_spec() <= num_disks,
        ensures
            r == (Vdev { vdev_type, disk_type, num_disks }),
            r.valid(),
    {
        Vdev { vdev_type, disk_type, num_disks }
    }

    /// Builds a configuration, rejecting a member count below the scheme's
    /// minimum with a typed error instead of a fatal abort.
    pub fn try_new(vdev_type: VdevType, disk_type: Disk, num_disks: u32) -> (r: Result<
        Vdev,
        ConfigError,
    >)
        ensures
            vdev_type.min_disks_spec() <= num_disks ==> r == Ok::<Vdev, ConfigError>(
                Vdev { vdev_type, disk_type, num_disks },
            ),
            num_disks < vdev_type.min_disks_spec() ==> r == Err::<Vdev, ConfigError>(
                ConfigError::InvalidMemberCount,
            ),
    {
        if vdev_type.min_disks() > num_disks {
            Err(ConfigError::InvalidMemberCount)
        } else {
            Ok(Vdev { vdev_type, disk_type, num_disks })
        }
    }

    /// Usable storage in hundredths of a terabyte.
    pub fn usable_storage(&self) -> (r: u64)
        requires
            self.valid(),
            self.usable_spec() <= u64::MAX,
        ensures
            r == self.usable_spec(),
    {
        self.vdev_type.usable_storage(&self.disk_type, self.num_disks)
    }

    /// Raw storage in hundredths of a terabyte.
    pub fn raw_storage(&self) -> (r: u64)
        requires
            self.raw_spec() <= u64::MAX,
        ensures
            r == self.raw_spec(),
    {
        self.disk_type.size * (self.num_disks as u64)
    }

    /// Total cost in hundredths of a currency unit.
    pub fn total_cost(&self) -> (r: u64)
        requires
            self.cost_spec() <= u64::MAX,
        ensures
            r == self.cost_spec(),
    {
        self.disk_type.cost * (self.num_disks as u64)
    }

    /// On a disk of positive capacity, a valid configuration's usable storage
    /// is strictly below its raw storage: parity always costs something.
    pub proof fn lemma_usable_lt_raw(self)
        requires
            self.valid(),
            self.disk_type.size > 0,
        ensures
            self.usable_spec() < self.raw_spec(),
    {
        let s = self.disk_type.size as int;
        let n = self.num_disks as int;
        let o = self.vdev_type.overhead_spec();
        assert(s * (n - o) < s * n) by (nonlinear_arith)
            requires
                s > 0,
                o >= 1,
        ;
    }

    /// For a fixed scheme and a disk of positive capacity, usable storage is
    /// strictly increasing in the member count.
    pub proof fn lemma_usable_monotonic(a: Vdev, b: Vdev)
        requires
            a.valid(),
            a.vdev_type == b.vdev_type,
            a.disk_type == b.disk_type,
            a.disk_type.size > 0,
            a.num_disks < b.num_disks,
        ensures
            a.usable_spec() < b.usable_spec(),
    {
        let s = a.disk_type.size as int;
        let o = a.vdev_type.overhead_spec();
        let n1 = a.num_disks as int;
        let n2 = b.num_disks as int;
        assert(s * (n1 - o) < s * (n2 - o)) by (nonlinear_arith)
            requires
                s > 0,
                n1 < n2,
        ;
    }
}

} // verus!
