//! Theoretical limits: per-dimension capacity ceilings (direct memory, heap,
//! metaspace, CPU, network, disk I/O), the burst-adjusted connection demand,
//! the overall bottleneck as a tagged minimum, the uptime category, a
//! sustainable-throughput estimate, and a per-dimension utilization
//! breakdown.
//!
//! Each ceiling follows the same shape: available capacity times a safe-use
//! fraction, divided by the per-connection cost, times the long-term
//! stability factor of 0.6. The arithmetic is exact rational arithmetic with
//! a single floor at the end of each ceiling.

use vstd::prelude::*;

use vstd::arithmetic::mul::lemma_mul_upper_bound;

use crate::analysis::safety::{
    calculate_direct_mem_per_conn, lemma_usage_bounds, spec_direct_mem_per_conn_mkb,
    spec_normal_direct_usage_mkb, spec_normal_heap_usage_mkb, MAX_NORMAL_DIRECT_USAGE_MKB,
    MAX_NORMAL_HEAP_USAGE_MKB, MKB_PER_MGB,
};
use crate::analysis::{calculate_metaspace, spec_metaspace_mb};
use crate::args::{valid_args, Args, MAX_CONNECTIONS};
use crate::budget::MAX_BUDGET_MGB;
use crate::config::{valid_disk_config, DiskConfig};

verus! {

/// Uptime category for a 6-to-12-month stable-operation target.
#[derive(Clone, Copy, Debug, PartialEq, Eq, Structural)]
pub enum UptimeCategory {
    /// The ceiling is at least twice the burst demand: 12 months and more.
    Ample,
    /// The ceiling covers the burst demand: 6 to 12 months.
    Adequate,
    /// The ceiling is below the burst demand: under 6 months, scale up.
    Insufficient,
}

/// The resource dimension that produced the overall minimum.
#[derive(Clone, Copy, Debug, PartialEq, Eq, Structural)]
pub enum LimitingFactor {
    /// Direct (off-heap I/O) memory.
    DirectMemory,
    /// Heap memory.
    HeapMemory,
    /// Metaspace.
    Metaspace,
    /// CPU resources.
    CpuResources,
    /// Network bandwidth.
    NetworkBandwidth,
    /// Disk I/O capacity.
    DiskIo,
    /// The burst-adjusted connection demand itself.
    BurstDemand,
}

/// Share of each dimension's capacity consumed by normal load, in per cent,
/// each clamped to 100.
#[derive(Clone, Copy, Debug, PartialEq, Eq, Structural)]
pub struct ResourceBreakdown {
    /// Heap consumption against the safe-use heap budget.
    pub heap_pct: u64,
    /// Direct-memory consumption against the safe-use direct budget.
    pub direct_mem_pct: u64,
    /// Metaspace consumption against the metaspace recommendation.
    pub metaspace_pct: u64,
    /// Expected connections against the CPU ceiling.
    pub cpu_pct: u64,
    /// Expected connections against the network ceiling.
    pub network_pct: u64,
    /// Expected connections against the disk I/O ceiling.
    pub disk_io_pct: u64,
}

/// Capacity assessment of one configuration under a 6-to-12-month stability
/// target.
#[derive(Clone, Copy, Debug, PartialEq, Eq, Structural)]
pub struct TheoreticalLimits {
    /// Maximum sustainable connections: the minimum over every dimension's
    /// ceiling and the burst demand.
    pub max_connections: u64,
    /// Sustainable throughput in MB/s.
    pub max_throughput: u64,
    /// Uptime category against the burst demand.
    pub estimated_uptime: UptimeCategory,
    /// The dimension that produced the minimum, in fixed priority order.
    pub limiting_factor: LimitingFactor,
    /// Connections the configuration could absorb in a short burst.
    pub burst_capacity: u64,
    /// Per-dimension utilization under normal load.
    pub resource_breakdown: ResourceBreakdown,
}

/// Direct-memory ceiling: 70% of the budget over the per-connection buffer
/// cost, times the 0.6 stability factor; with memory mapping on large files
/// the per-connection cost itself is taken at 70%, so the two safe-use
/// fractions cancel.
pub open spec fn spec_max_by_direct(a: Args, direct_mgb: int) -> int {
    let pc = spec_direct_mem_per_conn_mkb(a.avg_file_size as int);
    if a.enable_memory_mapping && a.avg_file_size > 100 {
        (direct_mgb * MKB_PER_MGB * 6) / (pc * 10)
    } else {
        (direct_mgb * MKB_PER_MGB * 42) / (pc * 100)
    }
}

/// Heap ceiling: 70% of the budget over the fixed 384 KB per-connection
/// heap cost, times the stability factor.
pub open spec fn spec_max_by_heap(heap_mgb: int) -> int {
    (heap_mgb * MKB_PER_MGB * 42) / 38_400_000
}

/// Metaspace ceiling: the metaspace recommendation (MB, scaled) over the
/// 64 KB-per-connection metaspace cost of the expected connection count,
/// times the stability factor.
pub open spec fn spec_max_by_metaspace(metaspace_mb: int, expected_connections: int) -> int {
    (metaspace_mb * MKB_PER_MGB * 96) / (expected_connections * 10)
}

/// CPU ceiling: each connection occupies 0.0005 cores; 0.6 of the cores are
/// usable long-term, so 1200 connections per core.
pub open spec fn spec_max_by_cpu(cpu_cores: int) -> int {
    cpu_cores * 1200
}

/// Network ceiling: each connection needs 0.2 Mbps; 0.6 of the bandwidth is
/// usable long-term, so 3000 connections per Gbps.
pub open spec fn spec_max_by_net(net_gbps: int) -> int {
    net_gbps * 3000
}

/// Disk ceiling: each connection needs 0.15 IOPS; 0.6 of the rated IOPS is
/// usable long-term, so 4 connections per rated IOPS.
pub open spec fn spec_max_by_disk(iops: int) -> int {
    iops * 4
}

/// Burst-adjusted connection demand.
pub open spec fn spec_burst_demand(a: Args) -> int {
    a.expected_connections * a.burst_factor
}

/// The overall ceiling: the minimum across every dimension, additionally
/// capped by the burst demand, so the system is never rated above what burst
/// traffic actually requires.
pub open spec fn spec_max_connections(a: Args, cfg: DiskConfig, direct_mgb: int, heap_mgb: int) -> int {
    let m1 = spec_max_by_direct(a, direct_mgb);
    let m2 = if spec_max_by_heap(heap_mgb) < m1 {
        spec_max_by_heap(heap_mgb)
    } else {
        m1
    };
    let m3 = if spec_max_by_metaspace(spec_metaspace_mb(a), a.expected_connections as int) < m2 {
        spec_max_by_metaspace(spec_metaspace_mb(a), a.expected_connections as int)
    } else {
        m2
    };
    let m4 = if spec_max_by_cpu(a.cpu_cores as int) < m3 {
        spec_max_by_cpu(a.cpu_cores as int)
    } else {
        m3
    };
    let m5 = if spec_max_by_net(a.net_gbps as int) < m4 {
        spec_max_by_net(a.net_gbps as int)
    } else {
        m4
    };
    let m6 = if spec_max_by_disk(cfg.iops as int) < m5 {
        spec_max_by_disk(cfg.iops as int)
    } else {
        m5
    };
    if spec_burst_demand(a) < m6 {
        spec_burst_demand(a)
    } else {
        m6
    }
}

/// The dimension that produced the minimum, evaluated in the fixed priority
/// order direct memory, heap, metaspace, CPU, network, disk; the burst
/// demand is reported only when it is the true minimum.
pub open spec fn spec_limiting_factor(a: Args, cfg: DiskConfig, direct_mgb: int, heap_mgb: int) -> LimitingFactor {
    let m = spec_max_connections(a, cfg, direct_mgb, heap_mgb);
    if spec_max_by_direct(a, direct_mgb) == m {
        LimitingFactor::DirectMemory
    } else if spec_max_by_heap(heap_mgb) == m {
        LimitingFactor::HeapMemory
    } else if spec_max_by_metaspace(spec_metaspace_mb(a), a.expected_connections as int) == m {
        LimitingFactor::Metaspace
    } else if spec_max_by_cpu(a.cpu_cores as int) == m {
        LimitingFactor::CpuResources
    } else if spec_max_by_net(a.net_gbps as int) == m {
        LimitingFactor::NetworkBandwidth
    } else if spec_max_by_disk(cfg.iops as int) == m {
        LimitingFactor::DiskIo
    } else {
        LimitingFactor::BurstDemand
    }
}

/// Uptime category: ample when the ceiling is at least twice the burst
/// demand, adequate when it covers it, insufficient otherwise.
pub open spec fn spec_uptime_category(max_connections: int, burst_demand: int) -> UptimeCategory {
    if max_connections >= 2 * burst_demand {
        UptimeCategory::Ample
    } else if max_connections >= burst_demand {
        UptimeCategory::Adequate
    } else {
        UptimeCategory::Insufficient
    }
}

/// Sustainable throughput in MB/s: 0.6 of the cores, at 0.15 seconds of
/// processing per MB, gives 4 MB/s per core.
pub open spec fn spec_max_throughput(cpu_cores: int) -> int {
    cpu_cores * 4
}

/// Burst capacity: the ceiling divided by the 0.6 stability factor.
pub open spec fn spec_burst_capacity(max_connections: int) -> int {
    (max_connections * 5) / 3
}

/// A percentage clamped to 100.
pub open spec fn spec_pct_clamped(raw: int) -> int {
    if raw < 100 {
        raw
    } else {
        100
    }
}

/// Per-dimension utilization of normal load, each clamped to 100%.
pub open spec fn spec_resource_breakdown(a: Args, cfg: DiskConfig, direct_mgb: int, heap_mgb: int) -> ResourceBreakdown {
    ResourceBreakdown {
        heap_pct: spec_pct_clamped(
            (spec_normal_heap_usage_mkb(a) * 1000) / (heap_mgb * 7_340_032),
        ) as u64,
        direct_mem_pct: spec_pct_clamped(
            (spec_normal_direct_usage_mkb(a) * 1000) / (direct_mgb * 7_340_032),
        ) as u64,
        metaspace_pct: spec_pct_clamped(
            (a.expected_connections * 625) / (spec_metaspace_mb(a) * 104_857_600),
        ) as u64,
        cpu_pct: spec_pct_clamped(
            (a.expected_connections * 100) / spec_max_by_cpu(a.cpu_cores as int),
        ) as u64,
        network_pct: spec_pct_clamped(
            (a.expected_connections * 100) / spec_max_by_net(a.net_gbps as int),
        ) as u64,
        disk_io_pct: spec_pct_clamped(
            (a.expected_connections * 100) / spec_max_by_disk(cfg.iops as int),
        ) as u64,
    }
}

/// The full limits record for a profile, a disk-table row, and the two
/// memory budgets (mGB).
pub open spec fn spec_theoretical_limits(a: Args, cfg: DiskConfig, direct_mgb: int, heap_mgb: int) -> TheoreticalLimits {
    let m = spec_max_connections(a, cfg, direct_mgb, heap_mgb);
    TheoreticalLimits {
        max_connections: m as u64,
        max_throughput: spec_max_throughput(a.cpu_cores as int) as u64,
        estimated_uptime: spec_uptime_category(m, spec_burst_demand(a)),
        limiting_factor: spec_limiting_factor(a, cfg, direct_mgb, heap_mgb),
        burst_capacity: spec_burst_capacity(m) as u64,
        resource_breakdown: spec_resource_breakdown(a, cfg, direct_mgb, heap_mgb),
    }
}

/// Computes the theoretical limits. The usage figures must be the
/// normal-load figures of the same profile, as the safety analyzer computes
/// them.
pub fn calculate_theoretical_limits(
    a: &Args,
    disk_config: &DiskConfig,
    direct_mem_mgb: u64,
    heap_mem_mgb: u64,
    normal_direct_usage_mkb: u64,
    normal_heap_usage_mkb: u64,
) -> (r: TheoreticalLimits)
    requires
        valid_args(*a),
        valid_disk_config(*disk_config),
        1 <= direct_mem_mgb <= MAX_BUDGET_MGB,
        1 <= heap_mem_mgb <= MAX_BUDGET_MGB,
        normal_direct_usage_mkb == spec_normal_direct_usage_mkb(*a),
        normal_heap_usage_mkb == spec_normal_heap_usage_mkb(*a),
    ensures
        r == spec_theoretical_limits(
            *a,
            *disk_config,
            direct_mem_mgb as int,
            heap_mem_mgb as int,
        ),
{
    proof {
        lemma_usage_bounds(*a);
        lemma_mul_upper_bound(
            a.expected_connections as int,
            MAX_CONNECTIONS as int,
            a.burst_factor as int,
            1_000,
        );
    }
    let (read_buffer, write_buffer) = calculate_direct_mem_per_conn(a.avg_file_size);
    let per_conn = read_buffer + write_buffer;

    let max_by_direct = if a.enable_memory_mapping && a.avg_file_size > 100 {
        (direct_mem_mgb * MKB_PER_MGB * 6) / (per_conn * 10)
    } else {
        (direct_mem_mgb * MKB_PER_MGB * 42) / (per_conn * 100)
    };
    let max_by_heap = (heap_mem_mgb * MKB_PER_MGB * 42) / 38_400_000;
    let metaspace_mb = calculate_metaspace(a) as u64;
    let max_by_metaspace = (metaspace_mb * MKB_PER_MGB * 96) / (a.expected_connections * 10);
    let max_by_cpu = a.cpu_cores * 1200;
    let max_by_net = a.net_gbps * 3000;
    let max_by_disk = disk_config.iops * 4;
    let burst_demand = a.expected_connections * a.burst_factor;

    let mut max_connections = max_by_direct;
    let mut limiting_factor = LimitingFactor::DirectMemory;
    if max_by_heap < max_connections {
        max_connections = max_by_heap;
        limiting_factor = LimitingFactor::HeapMemory;
    }
    if max_by_metaspace < max_connections {
        max_connections = max_by_metaspace;
        limiting_factor = LimitingFactor::Metaspace;
    }
    if max_by_cpu < max_connections {
        max_connections = max_by_cpu;
        limiting_factor = LimitingFactor::CpuResources;
    }
    if max_by_net < max_connections {
        max_connections = max_by_net;
        limiting_factor = LimitingFactor::NetworkBandwidth;
    }
    if max_by_disk < max_connections {
        max_connections = max_by_disk;
        limiting_factor = LimitingFactor::DiskIo;
    }
    if burst_demand < max_connections {
        max_connections = burst_demand;
        limiting_factor = LimitingFactor::BurstDemand;
    }

    let estimated_uptime = if max_connections >= 2 * burst_demand {
        UptimeCategory::Ample
    } else if max_connections >= burst_demand {
        UptimeCategory::Adequate
    } else {
        UptimeCategory::Insufficient
    };

    let heap_pct_raw = (normal_heap_usage_mkb * 1000) / (heap_mem_mgb * 7_340_032);
    let direct_pct_raw = (normal_direct_usage_mkb * 1000) / (direct_mem_mgb * 7_340_032);
    let metaspace_pct_raw = (a.expected_connections * 625) / (metaspace_mb * 104_857_600);
    let cpu_pct_raw = (a.expected_connections * 100) / max_by_cpu;
    let net_pct_raw = (a.expected_connections * 100) / max_by_net;
    let disk_pct_raw = (a.expected_connections * 100) / max_by_disk;

    let resource_breakdown = ResourceBreakdown {
        heap_pct: if heap_pct_raw < 100 {
            heap_pct_raw
        } else {
            100
        },
        direct_mem_pct: if direct_pct_raw < 100 {
            direct_pct_raw
        } else {
            100
        },
        metaspace_pct: if metaspace_pct_raw < 100 {
            metaspace_pct_raw
        } else {
            100
        },
        cpu_pct: if cpu_pct_raw < 100 {
            cpu_pct_raw
        } else {
            100
        },
        network_pct: if net_pct_raw < 100 {
            net_pct_raw
        } else {
            100
        },
        disk_io_pct: if disk_pct_raw < 100 {
            disk_pct_raw
        } else {
            100
        },
    };

    TheoreticalLimits {
        max_connections,
        max_throughput: a.cpu_cores * 4,
        estimated_uptime,
        limiting_factor,
        burst_capacity: (max_connections * 5) / 3,
        resource_breakdown,
    }
}

} // verus!
