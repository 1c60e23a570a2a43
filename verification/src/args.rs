//! The workload profile that every analysis consumes, and its validity bounds.

use vstd::prelude::*;

verus! {

/// Application complexity class: how much class/method metadata and heap
/// pressure the deployed application is expected to generate.
#[derive(Clone, Copy, Debug, PartialEq, Eq, Structural)]
pub enum Complexity {
    Low,
    Medium,
    High,
}

/// The closed set of disk technologies the model knows; each maps to a row
/// of the disk throughput table in `config`.
#[derive(Clone, Copy, Debug, PartialEq, Eq, Structural)]
pub enum DiskType {
    SataHdd,
    SataSsd,
    Nvme,
}

/// Hardware and workload profile of one deployment.
///
/// All quantities are plain integers in fixed units: RAM in GB, network
/// bandwidth in Gbps, average file size in MB. The validation layer in
/// front of the engine guarantees that the numeric fields are positive;
/// the engine itself states that assumption as [`valid_args`].
#[derive(Clone, Copy, Debug, PartialEq, Eq, Structural)]
pub struct Args {
    /// Total server RAM in GB.
    pub total_ram: u64,
    /// Number of CPU cores.
    pub cpu_cores: u64,
    /// Network bandwidth in Gbps.
    pub net_gbps: u64,
    /// Disk technology backing the file store.
    pub disk_type: DiskType,
    /// Average transferred file size in MB.
    pub avg_file_size: u64,
    /// Expected steady-state concurrent connection count.
    pub expected_connections: u64,
    /// Multiplier applied to the expected connections under burst traffic.
    pub burst_factor: u64,
    /// Whether the runtime memory guard (automatic throttling) is enabled.
    pub enable_memory_guard: bool,
    /// Whether memory-mapped I/O is enabled for large files.
    pub enable_memory_mapping: bool,
    /// Application complexity class.
    pub complexity: Complexity,
}

/// Upper bound on `total_ram` (GB) admitted by the model.
pub const MAX_RAM_GB: u64 = 1_000_000;
/// Upper bound on `cpu_cores` admitted by the model.
pub const MAX_CPU_CORES: u64 = 100_000;
/// Upper bound on `net_gbps` admitted by the model.
pub const MAX_NET_GBPS: u64 = 1_000_000;
/// Upper bound on `avg_file_size` (MB) admitted by the model.
pub const MAX_FILE_SIZE_MB: u64 = 1_000_000;
/// Upper bound on `expected_connections` admitted by the model.
pub const MAX_CONNECTIONS: u64 = 1_000_000_000;
/// Upper bound on `burst_factor` admitted by the model.
pub const MAX_BURST_FACTOR: u64 = 1_000;

/// The numeric fields fit under the fixed machine-width bounds; every
/// intermediate of the engine's fixed-point arithmetic then fits in the
/// integer types it computes with.
pub open spec fn bounded_args(a: Args) -> bool {
    &&& a.total_ram <= MAX_RAM_GB
    &&& a.cpu_cores <= MAX_CPU_CORES
    &&& a.net_gbps <= MAX_NET_GBPS
    &&& a.avg_file_size <= MAX_FILE_SIZE_MB
    &&& a.expected_connections <= MAX_CONNECTIONS
    &&& a.burst_factor <= MAX_BURST_FACTOR
}

/// A profile the engine is specified for: bounded, with every numeric field
/// positive and a burst multiplier of at least one, as the validation layer
/// in front of the engine guarantees.
pub open spec fn valid_args(a: Args) -> bool {
    &&& bounded_args(a)
    &&& a.total_ram >= 1
    &&& a.cpu_cores >= 1
    &&& a.net_gbps >= 1
    &&& a.avg_file_size >= 1
    &&& a.expected_connections >= 1
    &&& a.burst_factor >= 1
}

/// Boundary error for profile validation.
#[derive(Clone, Debug, PartialEq, Eq)]
pub enum AnalysisError {
    /// The disk type string is not one of the supported names.
    InvalidDiskType(String),
    /// A memory quantity (GB) was rejected at the boundary.
    InvalidMemoryValue(u64),
    /// A connection count was rejected at the boundary.
    InvalidConnectionCount(u64),
}

/// Parses a disk type name into the closed [`DiskType`] enum; any other
/// string is rejected, never silently defaulted.
pub fn validate_disk_type(s: &str) -> (r: Result<DiskType, AnalysisError>)
    ensures
        s@ == "sata_hdd"@ ==> r == Ok::<DiskType, AnalysisError>(DiskType::SataHdd),
        s@ == "sata_ssd"@ ==> r == Ok::<DiskType, AnalysisError>(DiskType::SataSsd),
        s@ == "nvme"@ ==> r == Ok::<DiskType, AnalysisError>(DiskType::Nvme),
        r is Ok <==> (s@ == "sata_hdd"@ || s@ == "sata_ssd"@ || s@ == "nvme"@),
        r is Err ==> (r matches Err(AnalysisError::InvalidDiskType(m)) && m@ == s@),
{
    proof {
        reveal_strlit("sata_hdd");
        reveal_strlit("sata_ssd");
        reveal_strlit("nvme");
    }
    let n = s.unicode_len();
    if n == 4 {
        if s.get_char(0) == 'n' && s.get_char(1) == 'v' && s.get_char(2) == 'm' && s.get_char(3)
            == 'e' {
            proof {
                assert(s@ =~= "nvme"@);
            }
            return Ok(DiskType::Nvme);
        }
    } else if n == 8 {
        let tail = if s.get_char(5) == 'h' && s.get_char(6) == 'd' && s.get_char(7) == 'd' {
            Some(DiskType::SataHdd)
        } else if s.get_char(5) == 's' && s.get_char(6) == 's' && s.get_char(7) == 'd' {
            Some(DiskType::SataSsd)
        } else {
            None
        };
        if let Some(d) = tail {
            if s.get_char(0) == 's' && s.get_char(1) == 'a' && s.get_char(2) == 't' && s.get_char(3)
                == 'a' && s.get_char(4) == '_' {
                proof {
                    if d == DiskType::SataHdd {
                        assert(s@ =~= "sata_hdd"@);
                    } else {
                        assert(s@ =~= "sata_ssd"@);
                    }
                }
                return Ok(d);
            }
        }
    }
    assert(s@ != "sata_hdd"@ && s@ != "sata_ssd"@ && s@ != "nvme"@);
    Err(AnalysisError::InvalidDiskType(s.to_owned()))
}

} // verus!
