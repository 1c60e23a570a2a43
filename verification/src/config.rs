//! The disk throughput table: a read-only configuration object mapping each
//! disk type to its sustained read/write speed and IOPS rating.

use vstd::prelude::*;

use crate::args::DiskType;

verus! {

/// Throughput figures of one disk technology: read and write speed in MB/s,
/// random I/O capacity in operations per second.
#[derive(Clone, Copy, Debug, PartialEq, Eq, Structural)]
pub struct DiskConfig {
    /// Sustained read speed in MB/s.
    pub read_speed: u64,
    /// Sustained write speed in MB/s.
    pub write_speed: u64,
    /// Random I/O operations per second.
    pub iops: u64,
}

/// The full table, one row per [`DiskType`].
#[derive(Clone, Copy, Debug, PartialEq, Eq, Structural)]
pub struct DiskConfigs {
    /// Row for [`DiskType::SataHdd`].
    pub sata_hdd: DiskConfig,
    /// Row for [`DiskType::SataSsd`].
    pub sata_ssd: DiskConfig,
    /// Row for [`DiskType::Nvme`].
    pub nvme: DiskConfig,
}

/// Upper bound on the speed columns (MB/s) admitted by the model.
pub const MAX_DISK_SPEED: u64 = 1_000_000;
/// Upper bound on the IOPS column admitted by the model.
pub const MAX_DISK_IOPS: u64 = 1_000_000_000;

/// A table row the engine is specified for: positive and bounded columns.
pub open spec fn valid_disk_config(c: DiskConfig) -> bool {
    &&& 1 <= c.read_speed <= MAX_DISK_SPEED
    &&& 1 <= c.write_speed <= MAX_DISK_SPEED
    &&& 1 <= c.iops <= MAX_DISK_IOPS
}

/// Every row of the table is valid.
pub open spec fn valid_disk_configs(t: DiskConfigs) -> bool {
    &&& valid_disk_config(t.sata_hdd)
    &&& valid_disk_config(t.sata_ssd)
    &&& valid_disk_config(t.nvme)
}

/// The row of the table for a given disk type.
pub open spec fn spec_disk_config(t: DiskConfigs, d: DiskType) -> DiskConfig {
    match d {
        DiskType::SataHdd => t.sata_hdd,
        DiskType::SataSsd => t.sata_ssd,
        DiskType::Nvme => t.nvme,
    }
}

impl DiskConfigs {
    /// Looks up the row for a disk type; the enum is closed, so no default
    /// row can ever be handed out silently.
    pub fn get(&self, d: DiskType) -> (r: &DiskConfig)
        ensures
            *r == spec_disk_config(*self, d),
    {
        match d {
            DiskType::SataHdd => &self.sata_hdd,
            DiskType::SataSsd => &self.sata_ssd,
            DiskType::Nvme => &self.nvme,
        }
    }
}

/// The built-in throughput table.
pub open spec fn spec_default_disk_configs() -> DiskConfigs {
    DiskConfigs {
        sata_hdd: DiskConfig { read_speed: 120, write_speed: 100, iops: 200 },
        sata_ssd: DiskConfig { read_speed: 300, write_speed: 250, iops: 100_000 },
        nvme: DiskConfig { read_speed: 1500, write_speed: 1200, iops: 500_000 },
    }
}

/// The built-in throughput table: spinning SATA disks with very low IOPS,
/// SATA SSDs, and NVMe drives.
pub fn get_disk_configs() -> (t: DiskConfigs)
    ensures
        t == spec_default_disk_configs(),
        valid_disk_configs(t),
{
    DiskConfigs {
        sata_hdd: DiskConfig { read_speed: 120, write_speed: 100, iops: 200 },
        sata_ssd: DiskConfig { read_speed: 300, write_speed: 250, iops: 100_000 },
        nvme: DiskConfig { read_speed: 1500, write_speed: 1200, iops: 500_000 },
    }
}

} // verus!
