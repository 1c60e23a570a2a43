//! Scenario performance analysis: for named workload scenarios (mixed file
//! sizes, small-file-heavy), per-resource QPS/connection ceilings with
//! protocol, filesystem and GC overhead fractions; the binding resource per
//! scenario; and a suggested load-test configuration.
//!
//! As everywhere in the crate, the arithmetic is exact rational arithmetic
//! over integers with one floor per ceiling: the network ceiling
//! `gbps * 125 * 0.97 / (file_mb * 1.05)` is `(gbps * 12125) / (file_mb * 105)`,
//! the disk ceiling `read_mb_s * 0.75 / (file_mb * 1.1)` is
//! `(read_mb_s * 75) / (file_mb * 110)`, and the CPU ceiling
//! `cores * 850 / file_mb` counts 15% GC loss. Every divisor derived from
//! the file size is floored to 1 first.

use vstd::prelude::*;

use vstd::arithmetic::mul::lemma_mul_upper_bound;

use crate::args::{valid_args, Args, MAX_FILE_SIZE_MB};
use crate::budget::MAX_BUDGET_MGB;
use crate::config::{valid_disk_config, DiskConfig};

verus! {

/// The resource dimensions ranked inside one performance scenario.
#[derive(Clone, Copy, Debug, PartialEq, Eq, Structural)]
pub enum ResourceName {
    /// Network bandwidth.
    NetworkBandwidth,
    /// Disk I/O.
    DiskIo,
    /// Direct memory (ranked by connection count only, no QPS).
    DirectMemory,
    /// CPU threads.
    CpuThreads,
}

/// One resource's ceiling inside a performance scenario.
#[derive(Clone, Copy, Debug, PartialEq, Eq)]
pub struct ResourceLimit {
    /// Which resource this row ranks.
    pub name: ResourceName,
    /// Whether this resource's ceiling equals the scenario's final capacity.
    pub limiting_factor: bool,
    /// Maximum concurrent connections this resource alone sustains.
    pub max_connections: u64,
    /// Queries per second at that ceiling; absent for resources measured
    /// only in connection count.
    pub qps: Option<u64>,
}

/// The named performance scenarios, each with its own average file size.
#[derive(Clone, Copy, Debug, PartialEq, Eq, Structural)]
pub enum PerfScenarioKind {
    /// A mix of file sizes, modeled at 30 MB.
    MixedFileSizes,
    /// Mostly small files, modeled at 5 MB.
    SmallFilesMostly,
}

/// A key finding of one scenario; rendering to text is the caller's
/// business.
#[derive(Clone, Copy, Debug, PartialEq, Eq)]
pub enum KeyFinding {
    /// Which resource binds the scenario, and at what QPS.
    BottleneckIdentified {
        /// Whether the scenario's file size counts as large (over 10 MB).
        large_file: bool,
        /// The scenario's average file size in MB.
        avg_file_size_mb: u64,
        /// The first resource, in table order, whose ceiling equals the
        /// final capacity.
        resource: ResourceName,
        /// The final capacity's QPS.
        qps: u64,
    },
    /// The direct-memory connection budget of the deployment.
    DirectMemoryAssessment {
        /// 8% of total RAM, in mGB: the default direct-memory share.
        direct_mem_estimate_mgb: u64,
        /// Connections the combined memory budget sustains.
        mem_connections: u64,
    },
}

/// Analysis of one performance scenario.
#[derive(Clone, Debug, PartialEq, Eq)]
pub struct ScenarioAnalysis {
    /// Which scenario this is.
    pub name: PerfScenarioKind,
    /// Average file size assumed by the scenario, in MB.
    pub avg_file_size: u64,
    /// The four per-resource ceilings, in fixed order: network, disk,
    /// direct memory, CPU.
    pub resources: Vec<ResourceLimit>,
    /// The row with the lowest connection ceiling among those that report a
    /// QPS value, as it stood before the limiting flags were assigned.
    pub final_capacity: ResourceLimit,
    /// The scenario's key findings.
    pub key_findings: Vec<KeyFinding>,
}

/// Suggested load-test configuration.
#[derive(Clone, Debug, PartialEq, Eq)]
pub struct TestConfig {
    /// Suggested worker thread count: twice the CPU cores.
    pub threads: u64,
    /// Suggested test duration.
    pub duration: String,
    /// Suggested ramp-up time.
    pub ramp_up: String,
    /// Throughput goal: the lowest final-capacity QPS across the scenarios.
    pub throughput_goal: u64,
}

/// The full performance report.
#[derive(Clone, Debug, PartialEq, Eq)]
pub struct PerformanceReport {
    /// One analysis per named scenario.
    pub scenarios: Vec<ScenarioAnalysis>,
    /// The suggested load-test configuration.
    pub test_config: TestConfig,
}

/// A file-size divisor floored to 1 MB.
pub open spec fn spec_fs_divisor(avg_file_size: int) -> int {
    if avg_file_size < 1 {
        1
    } else {
        avg_file_size
    }
}

/// Connections the combined direct and heap budget sustains, at 0.5 MB per
/// connection.
pub open spec fn spec_mem_connections(direct_mgb: int, heap_mgb: int) -> int {
    ((direct_mgb + heap_mgb) * 2048) / 1000
}

/// Network ceiling: the bandwidth in MB/s less 3% protocol overhead, over
/// the file size plus 5% framing overhead.
pub open spec fn spec_network_conn(net_gbps: int, avg_file_size: int) -> int {
    (net_gbps * 12_125) / (spec_fs_divisor(avg_file_size) * 105)
}

/// Disk ceiling: 75% of the read speed, over the file size plus 10%
/// filesystem overhead.
pub open spec fn spec_disk_conn(read_speed: int, avg_file_size: int) -> int {
    (read_speed * 75) / (spec_fs_divisor(avg_file_size) * 110)
}

/// CPU ceiling: 850 MB of throughput per core (after 15% GC loss) over the
/// file size.
pub open spec fn spec_cpu_conn(cpu_cores: int, avg_file_size: int) -> int {
    (cpu_cores * 850) / spec_fs_divisor(avg_file_size)
}

/// QPS at the CPU ceiling: the ceiling times the whole number of files per
/// 1000 MB of file size.
pub open spec fn spec_cpu_qps(cpu_cores: int, avg_file_size: int) -> int {
    spec_cpu_conn(cpu_cores, avg_file_size) * (1000int / spec_fs_divisor(avg_file_size))
}

/// The scenario's final capacity: the first row, in table order, with the
/// lowest connection ceiling among the rows that report a QPS value
/// (network, disk, CPU); its limiting flag still unset.
pub open spec fn spec_final_capacity(
    a: Args,
    cfg: DiskConfig,
    avg_file_size: int,
) -> ResourceLimit {
    let net = spec_network_conn(a.net_gbps as int, avg_file_size);
    let disk = spec_disk_conn(cfg.read_speed as int, avg_file_size);
    let cpu = spec_cpu_conn(a.cpu_cores as int, avg_file_size);
    if net <= disk && net <= cpu {
        ResourceLimit {
            name: ResourceName::NetworkBandwidth,
            limiting_factor: false,
            max_connections: net as u64,
            qps: Some(net as u64),
        }
    } else if disk <= cpu {
        ResourceLimit {
            name: ResourceName::DiskIo,
            limiting_factor: false,
            max_connections: disk as u64,
            qps: Some(disk as u64),
        }
    } else {
        ResourceLimit {
            name: ResourceName::CpuThreads,
            limiting_factor: false,
            max_connections: cpu as u64,
            qps: Some(spec_cpu_qps(a.cpu_cores as int, avg_file_size) as u64),
        }
    }
}

/// The four rows of one scenario, each flagged as limiting exactly when its
/// ceiling equals the final capacity.
pub open spec fn spec_scenario_resources(
    a: Args,
    cfg: DiskConfig,
    avg_file_size: int,
    mem_connections: int,
) -> Seq<ResourceLimit> {
    let net = spec_network_conn(a.net_gbps as int, avg_file_size);
    let disk = spec_disk_conn(cfg.read_speed as int, avg_file_size);
    let cpu = spec_cpu_conn(a.cpu_cores as int, avg_file_size);
    let fm = spec_final_capacity(a, cfg, avg_file_size).max_connections as int;
    seq![
        ResourceLimit {
            name: ResourceName::NetworkBandwidth,
            limiting_factor: net == fm,
            max_connections: net as u64,
            qps: Some(net as u64),
        },
        ResourceLimit {
            name: ResourceName::DiskIo,
            limiting_factor: disk == fm,
            max_connections: disk as u64,
            qps: Some(disk as u64),
        },
        ResourceLimit {
            name: ResourceName::DirectMemory,
            limiting_factor: mem_connections == fm,
            max_connections: mem_connections as u64,
            qps: None,
        },
        ResourceLimit {
            name: ResourceName::CpuThreads,
            limiting_factor: cpu == fm,
            max_connections: cpu as u64,
            qps: Some(spec_cpu_qps(a.cpu_cores as int, avg_file_size) as u64),
        },
    ]
}

/// The key findings of one scenario: the bottleneck (the first flagged row
/// in table order) with the final QPS, and the direct-memory assessment at
/// the default 8% RAM share.
pub open spec fn spec_key_findings(
    a: Args,
    cfg: DiskConfig,
    avg_file_size: int,
    mem_connections: int,
) -> Seq<KeyFinding> {
    let net = spec_network_conn(a.net_gbps as int, avg_file_size);
    let disk = spec_disk_conn(cfg.read_speed as int, avg_file_size);
    let fm = spec_final_capacity(a, cfg, avg_file_size).max_connections as int;
    let resource = if net == fm {
        ResourceName::NetworkBandwidth
    } else if disk == fm {
        ResourceName::DiskIo
    } else if mem_connections == fm {
        ResourceName::DirectMemory
    } else {
        ResourceName::CpuThreads
    };
    seq![
        KeyFinding::BottleneckIdentified {
            large_file: avg_file_size > 10,
            avg_file_size_mb: avg_file_size as u64,
            resource,
            qps: spec_final_qps(a, cfg, avg_file_size) as u64,
        },
        KeyFinding::DirectMemoryAssessment {
            direct_mem_estimate_mgb: (a.total_ram * 80) as u64,
            mem_connections: mem_connections as u64,
        },
    ]
}

/// The QPS of the final capacity.
pub open spec fn spec_final_qps(a: Args, cfg: DiskConfig, avg_file_size: int) -> int {
    let net = spec_network_conn(a.net_gbps as int, avg_file_size);
    let disk = spec_disk_conn(cfg.read_speed as int, avg_file_size);
    let cpu = spec_cpu_conn(a.cpu_cores as int, avg_file_size);
    if net <= disk && net <= cpu {
        net
    } else if disk <= cpu {
        disk
    } else {
        spec_cpu_qps(a.cpu_cores as int, avg_file_size)
    }
}

/// The throughput goal: the lowest final-capacity QPS across the two
/// scenarios.
pub open spec fn spec_throughput_goal(a: Args, cfg: DiskConfig) -> int {
    let q1 = spec_final_qps(a, cfg, 30);
    let q2 = spec_final_qps(a, cfg, 5);
    if q1 < q2 {
        q1
    } else {
        q2
    }
}

/// Analyzes one performance scenario at a given average file size.
pub fn analyze_scenario(
    name: PerfScenarioKind,
    avg_file_size: u64,
    a: &Args,
    disk_config: &DiskConfig,
    mem_connections: u64,
) -> (r: ScenarioAnalysis)
    requires
        valid_args(*a),
        valid_disk_config(*disk_config),
        avg_file_size <= MAX_FILE_SIZE_MB,
    ensures
        r.name == name,
        r.avg_file_size == avg_file_size,
        r.resources@ == spec_scenario_resources(
            *a,
            *disk_config,
            avg_file_size as int,
            mem_connections as int,
        ),
        r.final_capacity == spec_final_capacity(*a, *disk_config, avg_file_size as int),
        (r.final_capacity.qps matches Some(q) && q == spec_final_qps(
            *a,
            *disk_config,
            avg_file_size as int,
        )),
        r.key_findings@ == spec_key_findings(
            *a,
            *disk_config,
            avg_file_size as int,
            mem_connections as int,
        ),
{
    let fs_divisor = if avg_file_size < 1 {
        1
    } else {
        avg_file_size
    };
    let network_conn = (a.net_gbps * 12_125) / (fs_divisor * 105);
    let disk_conn = (disk_config.read_speed * 75) / (fs_divisor * 110);
    let cpu_conn = (a.cpu_cores * 850) / fs_divisor;
    proof {
        assert(cpu_conn <= 85_000_000) by (nonlinear_arith)
            requires
                cpu_conn == (a.cpu_cores * 850) / (fs_divisor as int),
                fs_divisor >= 1,
                a.cpu_cores * 850 <= 85_000_000,
        ;
        assert(0 <= 1000int / (fs_divisor as int) <= 1000) by (nonlinear_arith)
            requires
                fs_divisor >= 1,
        ;
        lemma_mul_upper_bound(
            cpu_conn as int,
            85_000_000,
            1000int / (fs_divisor as int),
            1000,
        );
    }
    let cpu_qps = cpu_conn * (1000 / fs_divisor);

    let final_capacity = if network_conn <= disk_conn && network_conn <= cpu_conn {
        ResourceLimit {
            name: ResourceName::NetworkBandwidth,
            limiting_factor: false,
            max_connections: network_conn,
            qps: Some(network_conn),
        }
    } else if disk_conn <= cpu_conn {
        ResourceLimit {
            name: ResourceName::DiskIo,
            limiting_factor: false,
            max_connections: disk_conn,
            qps: Some(disk_conn),
        }
    } else {
        ResourceLimit {
            name: ResourceName::CpuThreads,
            limiting_factor: false,
            max_connections: cpu_conn,
            qps: Some(cpu_qps),
        }
    };
    let fm = final_capacity.max_connections;

    let mut resources: Vec<ResourceLimit> = Vec::new();
    resources.push(
        ResourceLimit {
            name: ResourceName::NetworkBandwidth,
            limiting_factor: network_conn == fm,
            max_connections: network_conn,
            qps: Some(network_conn),
        },
    );
    resources.push(
        ResourceLimit {
            name: ResourceName::DiskIo,
            limiting_factor: disk_conn == fm,
            max_connections: disk_conn,
            qps: Some(disk_conn),
        },
    );
    resources.push(
        ResourceLimit {
            name: ResourceName::DirectMemory,
            limiting_factor: mem_connections == fm,
            max_connections: mem_connections,
            qps: None,
        },
    );
    resources.push(
        ResourceLimit {
            name: ResourceName::CpuThreads,
            limiting_factor: cpu_conn == fm,
            max_connections: cpu_conn,
            qps: Some(cpu_qps),
        },
    );
    proof {
        assert(resources@ =~= spec_scenario_resources(
            *a,
            *disk_config,
            avg_file_size as int,
            mem_connections as int,
        ));
    }

    let resource = if network_conn == fm {
        ResourceName::NetworkBandwidth
    } else if disk_conn == fm {
        ResourceName::DiskIo
    } else if mem_connections == fm {
        ResourceName::DirectMemory
    } else {
        ResourceName::CpuThreads
    };
    let final_qps = match final_capacity.qps {
        Some(q) => q,
        None => 0,
    };
    let mut key_findings: Vec<KeyFinding> = Vec::new();
    key_findings.push(
        KeyFinding::BottleneckIdentified {
            large_file: avg_file_size > 10,
            avg_file_size_mb: avg_file_size,
            resource,
            qps: final_qps,
        },
    );
    key_findings.push(
        KeyFinding::DirectMemoryAssessment {
            direct_mem_estimate_mgb: a.total_ram * 80,
            mem_connections,
        },
    );
    proof {
        assert(key_findings@ =~= spec_key_findings(
            *a,
            *disk_config,
            avg_file_size as int,
            mem_connections as int,
        ));
    }

    ScenarioAnalysis { name, avg_file_size, resources, final_capacity, key_findings }
}

/// Computes the performance report: the two named scenarios and the
/// suggested load-test configuration.
pub fn calculate_performance(
    a: &Args,
    disk_config: &DiskConfig,
    direct_mem_mgb: u64,
    heap_mem_mgb: u64,
) -> (r: PerformanceReport)
    requires
        valid_args(*a),
        valid_disk_config(*disk_config),
        1 <= direct_mem_mgb <= MAX_BUDGET_MGB,
        1 <= heap_mem_mgb <= MAX_BUDGET_MGB,
    ensures
        r.scenarios@.len() == 2,
        r.scenarios@[0].name == PerfScenarioKind::MixedFileSizes,
        r.scenarios@[0].avg_file_size == 30,
        r.scenarios@[0].resources@ == spec_scenario_resources(
            *a,
            *disk_config,
            30,
            spec_mem_connections(direct_mem_mgb as int, heap_mem_mgb as int),
        ),
        r.scenarios@[0].final_capacity == spec_final_capacity(*a, *disk_config, 30),
        r.scenarios@[0].key_findings@ == spec_key_findings(
            *a,
            *disk_config,
            30,
            spec_mem_connections(direct_mem_mgb as int, heap_mem_mgb as int),
        ),
        r.scenarios@[1].name == PerfScenarioKind::SmallFilesMostly,
        r.scenarios@[1].avg_file_size == 5,
        r.scenarios@[1].resources@ == spec_scenario_resources(
            *a,
            *disk_config,
            5,
            spec_mem_connections(direct_mem_mgb as int, heap_mem_mgb as int),
        ),
        r.scenarios@[1].final_capacity == spec_final_capacity(*a, *disk_config, 5),
        r.scenarios@[1].key_findings@ == spec_key_findings(
            *a,
            *disk_config,
            5,
            spec_mem_connections(direct_mem_mgb as int, heap_mem_mgb as int),
        ),
        r.test_config.threads == 2 * a.cpu_cores,
        r.test_config.duration@ == "10m"@,
        r.test_config.ramp_up@ == "1m"@,
        r.test_config.throughput_goal == spec_throughput_goal(*a, *disk_config),
{
    let mem_connections = ((direct_mem_mgb + heap_mem_mgb) * 2048) / 1000;
    let s1 = analyze_scenario(
        PerfScenarioKind::MixedFileSizes,
        30,
        a,
        disk_config,
        mem_connections,
    );
    let s2 = analyze_scenario(
        PerfScenarioKind::SmallFilesMostly,
        5,
        a,
        disk_config,
        mem_connections,
    );
    let q1 = match s1.final_capacity.qps {
        Some(q) => q,
        None => 0,
    };
    let q2 = match s2.final_capacity.qps {
        Some(q) => q,
        None => 0,
    };
    let throughput_goal = if q1 < q2 {
        q1
    } else {
        q2
    };
    let test_config = TestConfig {
        threads: 2 * a.cpu_cores,
        duration: ("10m").to_owned(),
        ramp_up: ("1m").to_owned(),
        throughput_goal,
    };
    let mut scenarios: Vec<ScenarioAnalysis> = Vec::new();
    scenarios.push(s1);
    scenarios.push(s2);
    PerformanceReport { scenarios, test_config }
}

} // verus!
