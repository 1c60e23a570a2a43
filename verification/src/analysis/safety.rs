//! Memory safety analysis: per-connection buffer model, heap/direct-memory
//! usage under normal and burst load, safety ratios, an overall risk label,
//! simulated load scenarios with status labels, and recommendations.
//!
//! Units: memory budgets arrive in thousandths of a GB ("mGB"); per-connection
//! buffer sizes and usage totals are carried in thousandths of a KB ("mKB"),
//! which keeps every step of the buffer model exact (a write buffer is 1.5
//! read buffers; one per cent of one MB of file size is exactly 10240 mKB).
//! Safety ratios are parts per million (ppm).

use vstd::prelude::*;

use vstd::arithmetic::mul::lemma_mul_upper_bound;

use crate::analysis::limits::{calculate_theoretical_limits, spec_theoretical_limits, TheoreticalLimits};
use crate::args::{valid_args, Args, MAX_CONNECTIONS, MAX_FILE_SIZE_MB};
use crate::budget::MAX_BUDGET_MGB;
use crate::config::{spec_disk_config, valid_disk_configs, DiskConfigs};

verus! {

/// Heap cost per connection, in mKB: 384 KB of buffers plus object overhead.
pub const HEAP_PER_CONN_MKB: u64 = 384_000;
/// Fixed per-connection direct-memory overhead (TLS, headers), in mKB: 100 KB.
pub const CONN_OVERHEAD_MKB: u64 = 100_000;
/// Read buffer for small files (at most 10 MB), in mKB: 128 KB.
pub const READ_BUFFER_SMALL_MKB: u64 = 128_000;
/// Read buffer for medium files (at most 100 MB), in mKB: 512 KB.
pub const READ_BUFFER_MEDIUM_MKB: u64 = 512_000;
/// Cap of the large-file read buffer, in mKB: 1 MB.
pub const READ_BUFFER_CAP_MKB: u64 = 1_024_000;
/// Largest possible per-connection direct-memory cost, in mKB.
pub const MAX_DIRECT_PER_CONN_MKB: u64 = 2_660_000;
/// mKB in one mGB (1048.576 KB per GB/1000, scaled by 1000).
pub const MKB_PER_MGB: u64 = 1_048_576;
/// One, in parts per million.
pub const PPM: u64 = 1_000_000;

/// Largest normal-load direct-memory usage, in mKB.
pub const MAX_NORMAL_DIRECT_USAGE_MKB: u64 = 2_660_000_000_000_000;
/// Largest normal-load heap usage, in mKB.
pub const MAX_NORMAL_HEAP_USAGE_MKB: u64 = 384_000_000_000_000;
/// Largest burst-load direct-memory usage, in mKB.
pub const MAX_BURST_DIRECT_USAGE_MKB: u64 = 2_660_000_000_000_000_000;

/// Read buffer per connection in mKB: fixed for small and medium files; for
/// large files one per cent of the file size (10240 mKB per MB) or 1 MB,
/// whichever is smaller — one per cent of anything over 100 MB exceeds 1 MB,
/// so the cap binds for every large file.
pub open spec fn spec_read_buffer_mkb(avg_file_size: int) -> int {
    if avg_file_size <= 10 {
        READ_BUFFER_SMALL_MKB as int
    } else if avg_file_size <= 100 {
        READ_BUFFER_MEDIUM_MKB as int
    } else if 10_240 * avg_file_size < READ_BUFFER_CAP_MKB {
        10_240 * avg_file_size
    } else {
        READ_BUFFER_CAP_MKB as int
    }
}

/// Total direct memory per connection in mKB: read buffer, plus a write
/// buffer 1.5 times as large, plus the fixed overhead.
pub open spec fn spec_direct_mem_per_conn_mkb(avg_file_size: int) -> int {
    let read = spec_read_buffer_mkb(avg_file_size);
    read + (3 * read) / 2 + CONN_OVERHEAD_MKB
}

/// Normal-load direct-memory usage in mKB: one buffer set per expected
/// connection; halved when memory mapping is enabled and files are large
/// (over 100 MB), since mapped I/O bypasses half the buffer pool.
pub open spec fn spec_normal_direct_usage_mkb(a: Args) -> int {
    let raw = a.expected_connections * spec_direct_mem_per_conn_mkb(a.avg_file_size as int);
    if a.enable_memory_mapping && a.avg_file_size > 100 {
        raw / 2
    } else {
        raw
    }
}

/// Normal-load heap usage in mKB: the fixed heap cost per expected connection.
pub open spec fn spec_normal_heap_usage_mkb(a: Args) -> int {
    a.expected_connections * HEAP_PER_CONN_MKB
}

/// Connection count under burst traffic.
pub open spec fn spec_burst_connections(a: Args) -> int {
    a.expected_connections * a.burst_factor
}

/// Burst-load direct-memory usage in mKB: computed exactly as the normal
/// load, only with the burst connection count — so the memory-mapping
/// halving for large files applies here too.
pub open spec fn spec_burst_direct_usage_mkb(a: Args) -> int {
    let raw = spec_burst_connections(a) * spec_direct_mem_per_conn_mkb(a.avg_file_size as int);
    if a.enable_memory_mapping && a.avg_file_size > 100 {
        raw / 2
    } else {
        raw
    }
}

/// Burst-load heap usage in mKB.
pub open spec fn spec_burst_heap_usage_mkb(a: Args) -> int {
    spec_burst_connections(a) * HEAP_PER_CONN_MKB
}

/// Bounds of the usage figures for a valid profile; every later formula
/// fits in a `u64` because of them.
pub proof fn lemma_usage_bounds(a: Args)
    requires
        valid_args(a),
    ensures
        1_000 < spec_direct_mem_per_conn_mkb(a.avg_file_size as int) <= MAX_DIRECT_PER_CONN_MKB,
        a.expected_connections * spec_direct_mem_per_conn_mkb(a.avg_file_size as int)
            <= MAX_NORMAL_DIRECT_USAGE_MKB,
        1 <= spec_normal_direct_usage_mkb(a) <= MAX_NORMAL_DIRECT_USAGE_MKB,
        HEAP_PER_CONN_MKB <= spec_normal_heap_usage_mkb(a) <= MAX_NORMAL_HEAP_USAGE_MKB,
        1 <= spec_burst_connections(a) <= 1_000_000_000_000,
        1 <= spec_burst_direct_usage_mkb(a) <= MAX_BURST_DIRECT_USAGE_MKB,
        HEAP_PER_CONN_MKB <= spec_burst_heap_usage_mkb(a) <= 384_000_000_000_000_000,
{
    let pc = spec_direct_mem_per_conn_mkb(a.avg_file_size as int);
    assert(1_000 < pc <= MAX_DIRECT_PER_CONN_MKB);
    lemma_mul_upper_bound(
        a.expected_connections as int,
        MAX_CONNECTIONS as int,
        pc,
        MAX_DIRECT_PER_CONN_MKB as int,
    );
    lemma_mul_upper_bound(
        a.expected_connections as int,
        MAX_CONNECTIONS as int,
        a.burst_factor as int,
        1_000,
    );
    lemma_mul_upper_bound(
        spec_burst_connections(a),
        1_000_000_000_000,
        pc,
        MAX_DIRECT_PER_CONN_MKB as int,
    );
    assert(spec_normal_direct_usage_mkb(a) >= 1) by (nonlinear_arith)
        requires
            a.expected_connections >= 1,
            pc > 1_000,
            spec_normal_direct_usage_mkb(a) >= (a.expected_connections * pc) / 2,
    ;
    assert(spec_burst_connections(a) >= 1) by (nonlinear_arith)
        requires
            a.expected_connections >= 1,
            a.burst_factor >= 1,
            spec_burst_connections(a) == a.expected_connections * a.burst_factor,
    ;
    assert(spec_burst_direct_usage_mkb(a) >= 1) by (nonlinear_arith)
        requires
            spec_burst_connections(a) >= 1,
            pc > 1_000,
            spec_burst_direct_usage_mkb(a) >= (spec_burst_connections(a) * pc) / 2,
    ;
    assert(spec_normal_heap_usage_mkb(a) >= HEAP_PER_CONN_MKB) by (nonlinear_arith)
        requires
            a.expected_connections >= 1,
            spec_normal_heap_usage_mkb(a) == a.expected_connections * HEAP_PER_CONN_MKB,
    ;
    assert(spec_burst_heap_usage_mkb(a) >= HEAP_PER_CONN_MKB) by (nonlinear_arith)
        requires
            spec_burst_connections(a) >= 1,
            spec_burst_heap_usage_mkb(a) == spec_burst_connections(a) * HEAP_PER_CONN_MKB,
    ;
}

/// Per-connection buffer sizes for an average file size, in mKB: the read
/// buffer, and the write buffer together with the fixed overhead.
pub fn calculate_direct_mem_per_conn(avg_file_size: u64) -> (r: (u64, u64))
    requires
        avg_file_size <= MAX_FILE_SIZE_MB,
    ensures
        r.0 == spec_read_buffer_mkb(avg_file_size as int),
        r.0 + r.1 == spec_direct_mem_per_conn_mkb(avg_file_size as int),
        1_000 < r.0 + r.1 <= MAX_DIRECT_PER_CONN_MKB,
{
    let read_buffer: u64 = if avg_file_size <= 10 {
        READ_BUFFER_SMALL_MKB
    } else if avg_file_size <= 100 {
        READ_BUFFER_MEDIUM_MKB
    } else {
        let scaled = 10_240 * avg_file_size;
        if scaled < READ_BUFFER_CAP_MKB {
            scaled
        } else {
            READ_BUFFER_CAP_MKB
        }
    };
    let write_buffer = (3 * read_buffer) / 2;
    (read_buffer, write_buffer + CONN_OVERHEAD_MKB)
}

/// Whether `usage / (budget in mKB)` is below `pct` per cent; the threshold
/// comparisons behind every scenario status.
pub open spec fn spec_usage_ratio_lt(usage_mkb: int, budget_mgb: int, pct: int) -> bool {
    100 * usage_mkb < budget_mgb * MKB_PER_MGB * pct
}

/// Status of a simulated scenario.
#[derive(Clone, Copy, Debug, PartialEq, Eq, Structural)]
pub enum ScenarioStatus {
    /// Both usage ratios are below 70% of the budget.
    Safe,
    /// Neither of the other two cases: some ratio is at 70% or above, but
    /// none reaches 85%.
    Warning,
    /// Some usage ratio is at or above 85% of the budget.
    Danger,
}

/// Scenario status as a pure function of the two usage figures against the
/// budgets themselves: safe when both ratios are below 70%, danger when
/// either reaches 85%, warning otherwise.
pub open spec fn spec_scenario_status(
    heap_usage_mkb: int,
    heap_budget_mgb: int,
    direct_usage_mkb: int,
    direct_budget_mgb: int,
) -> ScenarioStatus {
    if !spec_usage_ratio_lt(heap_usage_mkb, heap_budget_mgb, 85) || !spec_usage_ratio_lt(
        direct_usage_mkb,
        direct_budget_mgb,
        85,
    ) {
        ScenarioStatus::Danger
    } else if spec_usage_ratio_lt(heap_usage_mkb, heap_budget_mgb, 70) && spec_usage_ratio_lt(
        direct_usage_mkb,
        direct_budget_mgb,
        70,
    ) {
        ScenarioStatus::Safe
    } else {
        ScenarioStatus::Warning
    }
}

/// Computes the status label of one scenario from its usage figures (mKB)
/// and the two budgets (mGB).
pub fn status_label(
    heap_usage_mkb: u64,
    heap_budget_mgb: u64,
    direct_usage_mkb: u64,
    direct_budget_mgb: u64,
) -> (r: ScenarioStatus)
    ensures
        r == spec_scenario_status(
            heap_usage_mkb as int,
            heap_budget_mgb as int,
            direct_usage_mkb as int,
            direct_budget_mgb as int,
        ),
{
    let heap_lhs: u128 = 100 * (heap_usage_mkb as u128);
    let direct_lhs: u128 = 100 * (direct_usage_mkb as u128);
    let heap_base: u128 = (heap_budget_mgb as u128) * 1_048_576;
    let direct_base: u128 = (direct_budget_mgb as u128) * 1_048_576;
    if heap_lhs >= heap_base * 85 || direct_lhs >= direct_base * 85 {
        ScenarioStatus::Danger
    } else if heap_lhs < heap_base * 70 && direct_lhs < direct_base * 70 {
        ScenarioStatus::Safe
    } else {
        ScenarioStatus::Warning
    }
}

/// Normalized headroom in ppm: `1 - min(1, usage / (budget * 0.85 * 0.7))`,
/// reserving 15% of the budget for runtime-native overhead and applying the
/// conservative 70% usage threshold, so the ratio reaches zero well before
/// nominal exhaustion. Always in `[0, PPM]`.
pub open spec fn spec_safety_ppm(usage_mkb: int, budget_mgb: int) -> int {
    let denom = budget_mgb * MKB_PER_MGB * 119;
    let ratio = (usage_mkb * 200_000_000) / denom;
    if ratio < PPM {
        PPM - ratio
    } else {
        0
    }
}

/// Computes a safety ratio in ppm from a usage figure (mKB) and a budget
/// (mGB).
pub fn safety_ppm(usage_mkb: u64, budget_mgb: u64) -> (r: u64)
    requires
        1 <= budget_mgb,
    ensures
        r == spec_safety_ppm(usage_mkb as int, budget_mgb as int),
        r <= PPM,
{
    let num: u128 = (usage_mkb as u128) * 200_000_000;
    let den: u128 = (budget_mgb as u128) * 124_780_544;
    proof {
        assert(den == (budget_mgb * MKB_PER_MGB * 119) as u128);
    }
    let ratio: u128 = num / den;
    if ratio < (PPM as u128) {
        (PPM as u128 - ratio) as u64
    } else {
        0
    }
}

/// Overall risk label of the configuration.
#[derive(Clone, Copy, Debug, PartialEq, Eq, Structural)]
pub enum RiskLevel {
    /// Both safety ratios are comfortably high (above 0.4).
    Low,
    /// At least one safety ratio is above 0.2, but not both above 0.4.
    Medium,
    /// Neither safety ratio is above 0.2.
    High,
}

/// Risk level from the two safety ratios (ppm): low needs both healthy
/// (above 0.4), medium needs at least one acceptable (above 0.2), everything
/// else is high.
pub open spec fn spec_risk_level(heap_safety_ppm: int, direct_safety_ppm: int) -> RiskLevel {
    if heap_safety_ppm > 400_000 && direct_safety_ppm > 400_000 {
        RiskLevel::Low
    } else if heap_safety_ppm > 200_000 || direct_safety_ppm > 200_000 {
        RiskLevel::Medium
    } else {
        RiskLevel::High
    }
}

/// Hours until heap exhaustion, in tenths of an hour: assuming the heap
/// grows by 5% of its normal usage every hour, how long until 90% of the
/// heap budget is consumed; zero when the budget is already exceeded.
pub open spec fn spec_oom_hours_tenths(heap_budget_mgb: int, normal_heap_usage_mkb: int) -> int {
    let budget_mkb = heap_budget_mgb * MKB_PER_MGB;
    if 9 * budget_mkb >= 10 * normal_heap_usage_mkb {
        (180 * budget_mkb - 200 * normal_heap_usage_mkb) / normal_heap_usage_mkb
    } else {
        0
    }
}

/// Computes the leak-runway estimate in tenths of an hour.
pub fn oom_hours_tenths(heap_budget_mgb: u64, normal_heap_usage_mkb: u64) -> (r: u64)
    requires
        1 <= heap_budget_mgb <= MAX_BUDGET_MGB,
        1 <= normal_heap_usage_mkb <= MAX_NORMAL_HEAP_USAGE_MKB,
    ensures
        r == spec_oom_hours_tenths(heap_budget_mgb as int, normal_heap_usage_mkb as int),
{
    let budget_mkb = heap_budget_mgb * MKB_PER_MGB;
    if 9 * budget_mkb >= 10 * normal_heap_usage_mkb {
        (180 * budget_mkb - 200 * normal_heap_usage_mkb) / normal_heap_usage_mkb
    } else {
        0
    }
}

/// The kind of each simulated load scenario.
#[derive(Clone, Copy, Debug, PartialEq, Eq, Structural)]
pub enum ScenarioKind {
    /// Sustained 24-hour run: 50% heap growth, 20% direct-memory growth.
    Sustained24h,
    /// The expected steady-state load.
    NormalLoad,
    /// Burst traffic: expected connections times the burst factor.
    BurstLoad,
    /// Large-file transfers: five times the file size, half the connections.
    LargeFiles,
    /// Many small files: three times the connections, a tenth the file size.
    SmallFilesHighConcurrency,
}

/// One simulated load scenario; the status is a pure function of the stored
/// usage figures and the budgets.
#[derive(Clone, Copy, Debug, PartialEq, Eq, Structural)]
pub struct Scenario {
    /// Which scenario this is.
    pub name: ScenarioKind,
    /// Concurrent connections assumed by the scenario.
    pub connections: u64,
    /// Average file size assumed by the scenario, in KB.
    pub file_size: u64,
    /// Projected heap usage, in mKB.
    pub heap_usage: u64,
    /// Projected direct-memory usage, in mKB.
    pub direct_mem_usage: u64,
    /// Status derived from the two usage figures against the budgets.
    pub status: ScenarioStatus,
}

/// The sustained 24-hour scenario: normal load with 50% heap growth and
/// 20% direct-memory growth.
pub open spec fn spec_scenario_sustained(a: Args, direct_mgb: int, heap_mgb: int) -> Scenario {
    let hu = (3 * spec_normal_heap_usage_mkb(a)) / 2;
    let du = (6 * spec_normal_direct_usage_mkb(a)) / 5;
    Scenario {
        name: ScenarioKind::Sustained24h,
        connections: a.expected_connections,
        file_size: (a.avg_file_size * 1024) as u64,
        heap_usage: hu as u64,
        direct_mem_usage: du as u64,
        status: spec_scenario_status(hu, heap_mgb, du, direct_mgb),
    }
}

/// The normal-load scenario.
pub open spec fn spec_scenario_normal(a: Args, direct_mgb: int, heap_mgb: int) -> Scenario {
    let hu = spec_normal_heap_usage_mkb(a);
    let du = spec_normal_direct_usage_mkb(a);
    Scenario {
        name: ScenarioKind::NormalLoad,
        connections: a.expected_connections,
        file_size: (a.avg_file_size * 1024) as u64,
        heap_usage: hu as u64,
        direct_mem_usage: du as u64,
        status: spec_scenario_status(hu, heap_mgb, du, direct_mgb),
    }
}

/// The burst-traffic scenario.
pub open spec fn spec_scenario_burst(a: Args, direct_mgb: int, heap_mgb: int) -> Scenario {
    let hu = spec_burst_heap_usage_mkb(a);
    let du = spec_burst_direct_usage_mkb(a);
    Scenario {
        name: ScenarioKind::BurstLoad,
        connections: spec_burst_connections(a) as u64,
        file_size: (a.avg_file_size * 1024) as u64,
        heap_usage: hu as u64,
        direct_mem_usage: du as u64,
        status: spec_scenario_status(hu, heap_mgb, du, direct_mgb),
    }
}

/// The large-file scenario: five times the file size, half the connections,
/// half of both normal usages.
pub open spec fn spec_scenario_large_files(a: Args, direct_mgb: int, heap_mgb: int) -> Scenario {
    let hu = spec_normal_heap_usage_mkb(a) / 2;
    let du = spec_normal_direct_usage_mkb(a) / 2;
    Scenario {
        name: ScenarioKind::LargeFiles,
        connections: (a.expected_connections / 2) as u64,
        file_size: (a.avg_file_size * 5 * 1024) as u64,
        heap_usage: hu as u64,
        direct_mem_usage: du as u64,
        status: spec_scenario_status(hu, heap_mgb, du, direct_mgb),
    }
}

/// The many-small-files scenario: three times the connections, a tenth the
/// file size, 1.5 times both normal usages.
pub open spec fn spec_scenario_small_files(a: Args, direct_mgb: int, heap_mgb: int) -> Scenario {
    let hu = (3 * spec_normal_heap_usage_mkb(a)) / 2;
    let du = (3 * spec_normal_direct_usage_mkb(a)) / 2;
    Scenario {
        name: ScenarioKind::SmallFilesHighConcurrency,
        connections: (a.expected_connections * 3) as u64,
        file_size: ((a.avg_file_size * 1024) / 10) as u64,
        heap_usage: hu as u64,
        direct_mem_usage: du as u64,
        status: spec_scenario_status(hu, heap_mgb, du, direct_mgb),
    }
}

/// The five simulated scenarios, in presentation order.
pub open spec fn spec_scenarios(a: Args, direct_mgb: int, heap_mgb: int) -> Seq<Scenario> {
    seq![
        spec_scenario_sustained(a, direct_mgb, heap_mgb),
        spec_scenario_normal(a, direct_mgb, heap_mgb),
        spec_scenario_burst(a, direct_mgb, heap_mgb),
        spec_scenario_large_files(a, direct_mgb, heap_mgb),
        spec_scenario_small_files(a, direct_mgb, heap_mgb),
    ]
}

/// One optimization recommendation; rendering to text is the caller's
/// business.
#[derive(Clone, Copy, Debug, PartialEq, Eq, Structural)]
pub enum Recommendation {
    /// Direct-memory headroom is low: grow the budget by 30%.
    IncreaseDirectMemory {
        /// Current direct-memory budget, in mGB.
        current_mgb: u64,
        /// Suggested budget, in mGB.
        suggested_mgb: u64,
    },
    /// Heap headroom is low: grow the budget by 20%.
    IncreaseHeapMemory {
        /// Current heap budget, in mGB.
        current_mgb: u64,
        /// Suggested budget, in mGB.
        suggested_mgb: u64,
    },
    /// The memory guard is enabled: throttle automatically above 85% usage.
    EnableMemoryGuardThrottling,
    /// Files are large on average: use chunked uploads and memory mapping.
    OptimizeLargeFileHandling,
    /// Estimated time until heap exhaustion at the assumed growth rate.
    LeakRunwayEstimate {
        /// Hours until exhaustion, in tenths of an hour.
        hours_tenths: u64,
    },
    /// Monitor heap and direct-memory growth rates.
    AddMemoryMonitoring,
    /// Enable GC log analysis.
    EnableGcLogAnalysis,
    /// Enable heap dumps on out-of-memory errors.
    EnableHeapDump,
    /// The leak runway is under 24 hours: optimize immediately.
    UrgentLeakRisk,
}

/// The recommendation list, in presentation order: budget increases where a
/// safety ratio is under 0.3, the guard notice, the large-file notice, the
/// always-present leak-runway estimate and monitoring advice, and the urgent
/// flag when the runway is under 24 hours.
pub open spec fn spec_recommendations(a: Args, direct_mgb: int, heap_mgb: int) -> Seq<
    Recommendation,
> {
    let d_ppm = spec_safety_ppm(spec_normal_direct_usage_mkb(a), direct_mgb);
    let h_ppm = spec_safety_ppm(spec_normal_heap_usage_mkb(a), heap_mgb);
    let hours = spec_oom_hours_tenths(heap_mgb, spec_normal_heap_usage_mkb(a));
    (if d_ppm < 300_000 {
        seq![
            Recommendation::IncreaseDirectMemory {
                current_mgb: direct_mgb as u64,
                suggested_mgb: ((direct_mgb * 13) / 10) as u64,
            },
        ]
    } else {
        Seq::<Recommendation>::empty()
    }) + (if h_ppm < 300_000 {
        seq![
            Recommendation::IncreaseHeapMemory {
                current_mgb: heap_mgb as u64,
                suggested_mgb: ((heap_mgb * 6) / 5) as u64,
            },
        ]
    } else {
        Seq::<Recommendation>::empty()
    }) + (if a.enable_memory_guard {
        seq![Recommendation::EnableMemoryGuardThrottling]
    } else {
        Seq::<Recommendation>::empty()
    }) + (if a.avg_file_size > 50 {
        seq![Recommendation::OptimizeLargeFileHandling]
    } else {
        Seq::<Recommendation>::empty()
    }) + seq![
        Recommendation::LeakRunwayEstimate { hours_tenths: hours as u64 },
        Recommendation::AddMemoryMonitoring,
        Recommendation::EnableGcLogAnalysis,
        Recommendation::EnableHeapDump,
    ] + (if hours < 240 {
        seq![Recommendation::UrgentLeakRisk]
    } else {
        Seq::<Recommendation>::empty()
    })
}

/// The full safety analysis of one profile under one memory budget.
#[derive(Clone, Debug, PartialEq, Eq)]
pub struct SafetyAnalysis {
    /// Heap safety ratio in ppm (0 = exhausted, one million = fully idle).
    pub heap_safety: u64,
    /// Direct-memory safety ratio in ppm.
    pub direct_mem_safety: u64,
    /// Overall risk label.
    pub risk_level: RiskLevel,
    /// The five simulated load scenarios.
    pub scenarios: Vec<Scenario>,
    /// Optimization recommendations, in presentation order.
    pub recommendations: Vec<Recommendation>,
    /// Capacity ceilings and the overall bottleneck.
    pub theoretical_limits: TheoreticalLimits,
}

/// Builds the five simulated scenarios from the precomputed usage figures.
fn build_scenarios(
    a: &Args,
    direct_mem_mgb: u64,
    heap_mem_mgb: u64,
    normal_direct_usage: u64,
    normal_heap_usage: u64,
    burst_connections: u64,
    burst_direct_usage: u64,
    burst_heap_usage: u64,
) -> (v: Vec<Scenario>)
    requires
        valid_args(*a),
        normal_direct_usage == spec_normal_direct_usage_mkb(*a),
        normal_heap_usage == spec_normal_heap_usage_mkb(*a),
        burst_connections == spec_burst_connections(*a),
        burst_direct_usage == spec_burst_direct_usage_mkb(*a),
        burst_heap_usage == spec_burst_heap_usage_mkb(*a),
    ensures
        v@ == spec_scenarios(*a, direct_mem_mgb as int, heap_mem_mgb as int),
{
    proof {
        lemma_usage_bounds(*a);
    }
    let file_size_kb = a.avg_file_size * 1024;
    let mut scenarios: Vec<Scenario> = Vec::new();
    scenarios.push(
        Scenario {
            name: ScenarioKind::Sustained24h,
            connections: a.expected_connections,
            file_size: file_size_kb,
            heap_usage: (3 * normal_heap_usage) / 2,
            direct_mem_usage: (6 * normal_direct_usage) / 5,
            status: status_label(
                (3 * normal_heap_usage) / 2,
                heap_mem_mgb,
                (6 * normal_direct_usage) / 5,
                direct_mem_mgb,
            ),
        },
    );
    scenarios.push(
        Scenario {
            name: ScenarioKind::NormalLoad,
            connections: a.expected_connections,
            file_size: file_size_kb,
            heap_usage: normal_heap_usage,
            direct_mem_usage: normal_direct_usage,
            status: status_label(
                normal_heap_usage,
                heap_mem_mgb,
                normal_direct_usage,
                direct_mem_mgb,
            ),
        },
    );
    scenarios.push(
        Scenario {
            name: ScenarioKind::BurstLoad,
            connections: burst_connections,
            file_size: file_size_kb,
            heap_usage: burst_heap_usage,
            direct_mem_usage: burst_direct_usage,
            status: status_label(burst_heap_usage, heap_mem_mgb, burst_direct_usage, direct_mem_mgb),
        },
    );
    scenarios.push(
        Scenario {
            name: ScenarioKind::LargeFiles,
            connections: a.expected_connections / 2,
            file_size: a.avg_file_size * 5 * 1024,
            heap_usage: normal_heap_usage / 2,
            direct_mem_usage: normal_direct_usage / 2,
            status: status_label(
                normal_heap_usage / 2,
                heap_mem_mgb,
                normal_direct_usage / 2,
                direct_mem_mgb,
            ),
        },
    );
    scenarios.push(
        Scenario {
            name: ScenarioKind::SmallFilesHighConcurrency,
            connections: a.expected_connections * 3,
            file_size: file_size_kb / 10,
            heap_usage: (3 * normal_heap_usage) / 2,
            direct_mem_usage: (3 * normal_direct_usage) / 2,
            status: status_label(
                (3 * normal_heap_usage) / 2,
                heap_mem_mgb,
                (3 * normal_direct_usage) / 2,
                direct_mem_mgb,
            ),
        },
    );
    proof {
        assert(scenarios@ =~= spec_scenarios(*a, direct_mem_mgb as int, heap_mem_mgb as int));
    }
    scenarios
}

/// Builds the recommendation list from the precomputed safety figures.
fn build_recommendations(
    a: &Args,
    direct_mem_mgb: u64,
    heap_mem_mgb: u64,
    heap_safety: u64,
    direct_mem_safety: u64,
    hours: u64,
) -> (v: Vec<Recommendation>)
    requires
        valid_args(*a),
        1 <= direct_mem_mgb <= MAX_BUDGET_MGB,
        1 <= heap_mem_mgb <= MAX_BUDGET_MGB,
        heap_safety == spec_safety_ppm(spec_normal_heap_usage_mkb(*a), heap_mem_mgb as int),
        direct_mem_safety == spec_safety_ppm(
            spec_normal_direct_usage_mkb(*a),
            direct_mem_mgb as int,
        ),
        hours == spec_oom_hours_tenths(heap_mem_mgb as int, spec_normal_heap_usage_mkb(*a)),
    ensures
        v@ == spec_recommendations(*a, direct_mem_mgb as int, heap_mem_mgb as int),
{
    let mut recommendations: Vec<Recommendation> = Vec::new();
    if direct_mem_safety < 300_000 {
        recommendations.push(
            Recommendation::IncreaseDirectMemory {
                current_mgb: direct_mem_mgb,
                suggested_mgb: (direct_mem_mgb * 13) / 10,
            },
        );
    }
    if heap_safety < 300_000 {
        recommendations.push(
            Recommendation::IncreaseHeapMemory {
                current_mgb: heap_mem_mgb,
                suggested_mgb: (heap_mem_mgb * 6) / 5,
            },
        );
    }
    if a.enable_memory_guard {
        recommendations.push(Recommendation::EnableMemoryGuardThrottling);
    }
    if a.avg_file_size > 50 {
        recommendations.push(Recommendation::OptimizeLargeFileHandling);
    }
    recommendations.push(Recommendation::LeakRunwayEstimate { hours_tenths: hours });
    recommendations.push(Recommendation::AddMemoryMonitoring);
    recommendations.push(Recommendation::EnableGcLogAnalysis);
    recommendations.push(Recommendation::EnableHeapDump);
    if hours < 240 {
        recommendations.push(Recommendation::UrgentLeakRisk);
    }
    proof {
        assert(recommendations@ =~= spec_recommendations(
            *a,
            direct_mem_mgb as int,
            heap_mem_mgb as int,
        ));
    }
    recommendations
}

/// Analyzes memory safety of a profile against a direct-memory and heap
/// budget (mGB), including the theoretical limits of the configuration.
pub fn calculate_safety(
    a: &Args,
    configs: &DiskConfigs,
    direct_mem_mgb: u64,
    heap_mem_mgb: u64,
) -> (r: SafetyAnalysis)
    requires
        valid_args(*a),
        valid_disk_configs(*configs),
        1 <= direct_mem_mgb <= MAX_BUDGET_MGB,
        1 <= heap_mem_mgb <= MAX_BUDGET_MGB,
    ensures
        r.heap_safety == spec_safety_ppm(spec_normal_heap_usage_mkb(*a), heap_mem_mgb as int),
        r.direct_mem_safety == spec_safety_ppm(
            spec_normal_direct_usage_mkb(*a),
            direct_mem_mgb as int,
        ),
        r.heap_safety <= PPM,
        r.direct_mem_safety <= PPM,
        r.risk_level == spec_risk_level(r.heap_safety as int, r.direct_mem_safety as int),
        r.scenarios@ == spec_scenarios(*a, direct_mem_mgb as int, heap_mem_mgb as int),
        r.recommendations@ == spec_recommendations(*a, direct_mem_mgb as int, heap_mem_mgb as int),
        r.theoretical_limits == spec_theoretical_limits(
            *a,
            spec_disk_config(*configs, a.disk_type),
            direct_mem_mgb as int,
            heap_mem_mgb as int,
        ),
{
    proof {
        lemma_usage_bounds(*a);
    }
    let (read_buffer, write_buffer) = calculate_direct_mem_per_conn(a.avg_file_size);
    let per_conn = read_buffer + write_buffer;

    let raw_direct = a.expected_connections * per_conn;
    let normal_direct_usage = if a.enable_memory_mapping && a.avg_file_size > 100 {
        raw_direct / 2
    } else {
        raw_direct
    };
    let normal_heap_usage = a.expected_connections * HEAP_PER_CONN_MKB;

    let burst_connections = a.expected_connections * a.burst_factor;
    let raw_burst_direct = burst_connections * per_conn;
    let burst_direct_usage = if a.enable_memory_mapping && a.avg_file_size > 100 {
        raw_burst_direct / 2
    } else {
        raw_burst_direct
    };
    let burst_heap_usage = burst_connections * HEAP_PER_CONN_MKB;

    let heap_safety = safety_ppm(normal_heap_usage, heap_mem_mgb);
    let direct_mem_safety = safety_ppm(normal_direct_usage, direct_mem_mgb);

    let risk_level = if heap_safety > 400_000 && direct_mem_safety > 400_000 {
        RiskLevel::Low
    } else if heap_safety > 200_000 || direct_mem_safety > 200_000 {
        RiskLevel::Medium
    } else {
        RiskLevel::High
    };

    let scenarios = build_scenarios(
        a,
        direct_mem_mgb,
        heap_mem_mgb,
        normal_direct_usage,
        normal_heap_usage,
        burst_connections,
        burst_direct_usage,
        burst_heap_usage,
    );

    let hours = oom_hours_tenths(heap_mem_mgb, normal_heap_usage);
    let recommendations = build_recommendations(
        a,
        direct_mem_mgb,
        heap_mem_mgb,
        heap_safety,
        direct_mem_safety,
        hours,
    );

    let disk_config = configs.get(a.disk_type);
    let theoretical_limits = calculate_theoretical_limits(
        a,
        disk_config,
        direct_mem_mgb,
        heap_mem_mgb,
        normal_direct_usage,
        normal_heap_usage,
    );

    SafetyAnalysis {
        heap_safety,
        direct_mem_safety,
        risk_level,
        scenarios,
        recommendations,
        theoretical_limits,
    }
}

} // verus!
