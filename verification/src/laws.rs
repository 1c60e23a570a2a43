//! The crate-level laws: range and consistency properties of the engine,
//! stated over the same spec functions that the executable functions'
//! contracts use, and proved once and for all profiles.

use vstd::prelude::*;

use vstd::arithmetic::mul::lemma_mul_inequality;

use crate::analysis::limits::{
    spec_burst_demand, spec_limiting_factor, spec_max_by_cpu, spec_max_by_direct,
    spec_max_by_disk, spec_max_by_heap, spec_max_by_metaspace, spec_max_by_net,
    spec_max_connections, spec_theoretical_limits, LimitingFactor,
};
use crate::analysis::safety::{
    lemma_usage_bounds, spec_normal_direct_usage_mkb, spec_normal_heap_usage_mkb,
    spec_recommendations, spec_safety_ppm, spec_scenario_status, spec_scenarios,
    spec_usage_ratio_lt, ScenarioStatus, PPM,
};
use crate::analysis::{spec_metaspace_mb, MAX_METASPACE_MB, MIN_METASPACE_MB};
use crate::args::{bounded_args, valid_args, Args, DiskType};
use crate::budget::MAX_BUDGET_MGB;
use crate::config::{spec_default_disk_configs, spec_disk_config, valid_disk_config, DiskConfig};

verus! {

/// For every bounded profile, the metaspace recommendation lies inside
/// `[MIN_METASPACE_MB, MAX_METASPACE_MB]`.
pub proof fn lemma_metaspace_in_range(a: Args)
    requires
        bounded_args(a),
    ensures
        MIN_METASPACE_MB <= spec_metaspace_mb(a) <= MAX_METASPACE_MB,
{
}

/// A safety ratio is always inside `[0, 1]` (in ppm): for any nonnegative
/// usage and positive budget.
pub proof fn lemma_safety_ratio_unit_interval(usage_mkb: int, budget_mgb: int)
    requires
        0 <= usage_mkb,
        1 <= budget_mgb,
    ensures
        0 <= spec_safety_ppm(usage_mkb, budget_mgb) <= PPM,
{
    let denom = budget_mgb * 1_048_576 * 119;
    assert(0 <= (usage_mkb * 200_000_000) / denom) by (nonlinear_arith)
        requires
            0 <= usage_mkb,
            denom >= 1,
    ;
}

/// For every valid profile and positive budgets, both of the engine's
/// safety ratios lie inside `[0, 1]` (in ppm).
pub proof fn lemma_profile_safety_ratios_unit_interval(a: Args, direct_mgb: int, heap_mgb: int)
    requires
        valid_args(a),
        1 <= direct_mgb,
        1 <= heap_mgb,
    ensures
        0 <= spec_safety_ppm(spec_normal_heap_usage_mkb(a), heap_mgb) <= PPM,
        0 <= spec_safety_ppm(spec_normal_direct_usage_mkb(a), direct_mgb) <= PPM,
{
    lemma_usage_bounds(a);
    lemma_safety_ratio_unit_interval(spec_normal_heap_usage_mkb(a), heap_mgb);
    lemma_safety_ratio_unit_interval(spec_normal_direct_usage_mkb(a), direct_mgb);
}

/// The overall connection ceiling is the minimum over every resource
/// dimension and the burst demand: it is below each of the seven values and
/// equal to at least one of them, and the record stores exactly it.
pub proof fn lemma_max_connections_is_min(a: Args, cfg: DiskConfig, direct_mgb: int, heap_mgb: int)
    requires
        valid_args(a),
        valid_disk_config(cfg),
        1 <= direct_mgb <= MAX_BUDGET_MGB,
        1 <= heap_mgb <= MAX_BUDGET_MGB,
    ensures
        spec_max_connections(a, cfg, direct_mgb, heap_mgb) <= spec_max_by_direct(a, direct_mgb),
        spec_max_connections(a, cfg, direct_mgb, heap_mgb) <= spec_max_by_heap(heap_mgb),
        spec_max_connections(a, cfg, direct_mgb, heap_mgb) <= spec_max_by_metaspace(
            spec_metaspace_mb(a),
            a.expected_connections as int,
        ),
        spec_max_connections(a, cfg, direct_mgb, heap_mgb) <= spec_max_by_cpu(a.cpu_cores as int),
        spec_max_connections(a, cfg, direct_mgb, heap_mgb) <= spec_max_by_net(a.net_gbps as int),
        spec_max_connections(a, cfg, direct_mgb, heap_mgb) <= spec_max_by_disk(cfg.iops as int),
        spec_max_connections(a, cfg, direct_mgb, heap_mgb) <= spec_burst_demand(a),
        spec_max_connections(a, cfg, direct_mgb, heap_mgb) == spec_max_by_direct(a, direct_mgb)
            || spec_max_connections(a, cfg, direct_mgb, heap_mgb) == spec_max_by_heap(heap_mgb)
            || spec_max_connections(a, cfg, direct_mgb, heap_mgb) == spec_max_by_metaspace(
            spec_metaspace_mb(a),
            a.expected_connections as int,
        )
            || spec_max_connections(a, cfg, direct_mgb, heap_mgb) == spec_max_by_cpu(
            a.cpu_cores as int,
        )
            || spec_max_connections(a, cfg, direct_mgb, heap_mgb) == spec_max_by_net(
            a.net_gbps as int,
        )
            || spec_max_connections(a, cfg, direct_mgb, heap_mgb) == spec_max_by_disk(
            cfg.iops as int,
        )
            || spec_max_connections(a, cfg, direct_mgb, heap_mgb) == spec_burst_demand(a),
        spec_theoretical_limits(a, cfg, direct_mgb, heap_mgb).max_connections
            == spec_max_connections(a, cfg, direct_mgb, heap_mgb),
{
    lemma_usage_bounds(a);
    let pc = crate::analysis::safety::spec_direct_mem_per_conn_mkb(a.avg_file_size as int);
    assert(0 <= spec_max_by_direct(a, direct_mgb)) by (nonlinear_arith)
        requires
            pc >= 1,
            direct_mgb >= 1,
            spec_max_by_direct(a, direct_mgb) == (direct_mgb * 1_048_576 * 6) / (pc * 10)
                || spec_max_by_direct(a, direct_mgb) == (direct_mgb * 1_048_576 * 42) / (pc * 100),
    ;
    assert(0 <= spec_max_by_metaspace(spec_metaspace_mb(a), a.expected_connections as int))
        by (nonlinear_arith)
        requires
            spec_metaspace_mb(a) >= 1,
            a.expected_connections >= 1,
            spec_max_by_metaspace(spec_metaspace_mb(a), a.expected_connections as int) == (
            spec_metaspace_mb(a) * 1_048_576 * 96) / (a.expected_connections as int * 10),
    ;
    assert(spec_burst_demand(a) <= 1_000_000_000_000);
}

/// A scenario's status is safe exactly when both usage ratios are below
/// 70% of the budgets, danger exactly when either reaches 85%, and warning
/// exactly in the remaining band between the two thresholds.
pub proof fn lemma_scenario_status_thresholds(
    heap_usage_mkb: int,
    heap_budget_mgb: int,
    direct_usage_mkb: int,
    direct_budget_mgb: int,
)
    requires
        0 <= heap_usage_mkb,
        0 <= direct_usage_mkb,
        1 <= heap_budget_mgb,
        1 <= direct_budget_mgb,
    ensures
        spec_scenario_status(heap_usage_mkb, heap_budget_mgb, direct_usage_mkb, direct_budget_mgb)
            == ScenarioStatus::Safe <==> (spec_usage_ratio_lt(heap_usage_mkb, heap_budget_mgb, 70)
            && spec_usage_ratio_lt(direct_usage_mkb, direct_budget_mgb, 70)),
        spec_scenario_status(heap_usage_mkb, heap_budget_mgb, direct_usage_mkb, direct_budget_mgb)
            == ScenarioStatus::Danger <==> (!spec_usage_ratio_lt(heap_usage_mkb, heap_budget_mgb, 85)
            || !spec_usage_ratio_lt(direct_usage_mkb, direct_budget_mgb, 85)),
        spec_scenario_status(heap_usage_mkb, heap_budget_mgb, direct_usage_mkb, direct_budget_mgb)
            == ScenarioStatus::Warning <==> (!(spec_usage_ratio_lt(heap_usage_mkb, heap_budget_mgb, 70)
            && spec_usage_ratio_lt(direct_usage_mkb, direct_budget_mgb, 70)) && spec_usage_ratio_lt(
            heap_usage_mkb,
            heap_budget_mgb,
            85,
        ) && spec_usage_ratio_lt(direct_usage_mkb, direct_budget_mgb, 85)),
{
}

/// Every stored scenario's status equals the status recomputed from its own
/// stored usage figures against the budgets: the list can never hold a
/// status inconsistent with the figures beside it.
pub proof fn lemma_scenario_status_consistent(a: Args, direct_mgb: int, heap_mgb: int)
    requires
        valid_args(a),
        1 <= direct_mgb <= MAX_BUDGET_MGB,
        1 <= heap_mgb <= MAX_BUDGET_MGB,
    ensures
        forall|i: int|
            0 <= i < spec_scenarios(a, direct_mgb, heap_mgb).len()
                ==> (#[trigger] spec_scenarios(a, direct_mgb, heap_mgb)[i]).status
                == spec_scenario_status(
                spec_scenarios(a, direct_mgb, heap_mgb)[i].heap_usage as int,
                heap_mgb,
                spec_scenarios(a, direct_mgb, heap_mgb)[i].direct_mem_usage as int,
                direct_mgb,
            ),
{
    lemma_usage_bounds(a);
    let s = spec_scenarios(a, direct_mgb, heap_mgb);
    assert(s[0].status == spec_scenario_status(
        s[0].heap_usage as int,
        heap_mgb,
        s[0].direct_mem_usage as int,
        direct_mgb,
    ));
    assert(s[1].status == spec_scenario_status(
        s[1].heap_usage as int,
        heap_mgb,
        s[1].direct_mem_usage as int,
        direct_mgb,
    ));
    assert(s[2].status == spec_scenario_status(
        s[2].heap_usage as int,
        heap_mgb,
        s[2].direct_mem_usage as int,
        direct_mgb,
    ));
    assert(s[3].status == spec_scenario_status(
        s[3].heap_usage as int,
        heap_mgb,
        s[3].direct_mem_usage as int,
        direct_mgb,
    ));
    assert(s[4].status == spec_scenario_status(
        s[4].heap_usage as int,
        heap_mgb,
        s[4].direct_mem_usage as int,
        direct_mgb,
    ));
}

/// The whole engine is a pure function of the profile and the budgets:
/// equal inputs give equal structured results. Together with the engine
/// functions' contracts, which pin every result to these spec functions,
/// two runs on one profile return identical output.
pub proof fn lemma_engine_deterministic(a1: Args, a2: Args, direct_mgb: int, heap_mgb: int)
    requires
        a1 == a2,
    ensures
        spec_metaspace_mb(a1) == spec_metaspace_mb(a2),
        spec_scenarios(a1, direct_mgb, heap_mgb) == spec_scenarios(a2, direct_mgb, heap_mgb),
        spec_recommendations(a1, direct_mgb, heap_mgb) == spec_recommendations(
            a2,
            direct_mgb,
            heap_mgb,
        ),
        forall|cfg: DiskConfig|
            #[trigger] spec_theoretical_limits(a1, cfg, direct_mgb, heap_mgb)
                == spec_theoretical_limits(a2, cfg, direct_mgb, heap_mgb),
{
}

/// With memory mapping enabled and large files (over 100 MB), the modeled
/// direct-memory usage — under normal load and under burst alike, since
/// burst usage is computed identically at the burst connection count — is
/// strictly lower than for the same profile with the flag disabled.
pub proof fn lemma_memory_mapping_reduces_direct_usage(a_mapped: Args, a_unmapped: Args)
    requires
        valid_args(a_mapped),
        valid_args(a_unmapped),
        a_mapped.enable_memory_mapping,
        !a_unmapped.enable_memory_mapping,
        a_mapped.avg_file_size == a_unmapped.avg_file_size,
        a_mapped.expected_connections == a_unmapped.expected_connections,
        a_mapped.burst_factor == a_unmapped.burst_factor,
        a_mapped.avg_file_size > 100,
    ensures
        spec_normal_direct_usage_mkb(a_mapped) < spec_normal_direct_usage_mkb(a_unmapped),
        crate::analysis::safety::spec_burst_direct_usage_mkb(a_mapped)
            < crate::analysis::safety::spec_burst_direct_usage_mkb(a_unmapped),
{
    lemma_usage_bounds(a_mapped);
    lemma_usage_bounds(a_unmapped);
}

/// On a SATA spinning disk at 60000 expected connections, the limiting
/// factor of the built-in table is never CPU, network, or the burst demand:
/// the 200-IOPS disk ceiling of 800 connections undercuts the CPU ceiling
/// (at least 1200), the network ceiling (at least 3000), and the burst
/// demand (at least 60000); only a memory dimension can undercut the disk.
pub proof fn lemma_hdd_high_load_bottleneck(a: Args, direct_mgb: int, heap_mgb: int)
    requires
        valid_args(a),
        a.disk_type == DiskType::SataHdd,
        a.expected_connections == 60_000,
        1 <= direct_mgb <= MAX_BUDGET_MGB,
        1 <= heap_mgb <= MAX_BUDGET_MGB,
    ensures
        spec_limiting_factor(
            a,
            spec_disk_config(spec_default_disk_configs(), a.disk_type),
            direct_mgb,
            heap_mgb,
        ) != LimitingFactor::CpuResources,
        spec_limiting_factor(
            a,
            spec_disk_config(spec_default_disk_configs(), a.disk_type),
            direct_mgb,
            heap_mgb,
        ) != LimitingFactor::NetworkBandwidth,
        spec_limiting_factor(
            a,
            spec_disk_config(spec_default_disk_configs(), a.disk_type),
            direct_mgb,
            heap_mgb,
        ) != LimitingFactor::BurstDemand,
{
    let cfg = spec_disk_config(spec_default_disk_configs(), a.disk_type);
    assert(cfg.iops == 200);
    assert(spec_max_by_disk(cfg.iops as int) == 800);
    lemma_mul_inequality(1, a.burst_factor as int, 60_000);
    assert(spec_burst_demand(a) >= 60_000);
    assert(spec_max_by_cpu(a.cpu_cores as int) >= 1200);
    assert(spec_max_by_net(a.net_gbps as int) >= 3000);
    assert(spec_max_connections(a, cfg, direct_mgb, heap_mgb) <= 800);
}

} // verus!
