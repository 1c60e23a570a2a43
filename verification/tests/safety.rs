use sa::analysis::safety::{
    calculate_direct_mem_per_conn, calculate_safety, status_label, Recommendation, ScenarioKind,
    ScenarioStatus, RiskLevel,
};
use sa::args::{Args, Complexity, DiskType};
use sa::config::get_disk_configs;

fn profile() -> Args {
    Args {
        total_ram: 16,
        cpu_cores: 8,
        net_gbps: 1,
        disk_type: DiskType::SataSsd,
        expected_connections: 1000,
        burst_factor: 2,
        avg_file_size: 5,
        enable_memory_guard: true,
        enable_memory_mapping: false,
        complexity: Complexity::Medium,
    }
}

#[test]
fn test_calculate_safety() {
    let args = profile();
    // Budgets of 4 GB direct and 12 GB heap, in thousandths of a GB.
    let safety = calculate_safety(&args, &get_disk_configs(), 4000, 12000);
    assert!(safety.heap_safety > 0, "Heap safety should be positive");
    assert!(
        safety.direct_mem_safety > 0,
        "Direct memory safety should be positive"
    );
    assert!(!safety.scenarios.is_empty(), "Should generate scenarios");
    assert!(
        !safety.recommendations.is_empty(),
        "Should generate recommendations"
    );
}

#[test]
fn safety_ratios_exact_values() {
    let safety = calculate_safety(&profile(), &get_disk_configs(), 4000, 12000);
    // 384 million mKB of heap use against 12000 mGB, 420 million mKB of
    // direct use against 4000 mGB, through 0.85 reserve and 0.7 threshold.
    assert_eq!(safety.heap_safety, 948_710);
    assert_eq!(safety.direct_mem_safety, 831_705);
    assert_eq!(safety.risk_level, RiskLevel::Low);
}

#[test]
fn safety_ratios_within_unit_interval() {
    for (direct_mgb, heap_mgb) in [(1, 1), (800, 950), (4000, 12000), (1_000_000_000, 1_000_000_000)] {
        let safety = calculate_safety(&profile(), &get_disk_configs(), direct_mgb, heap_mgb);
        assert!(safety.heap_safety <= 1_000_000);
        assert!(safety.direct_mem_safety <= 1_000_000);
    }
}

#[test]
fn risk_level_medium_when_only_one_ratio_healthy() {
    // Heap safety lands at 352126 ppm (above 0.2, not above 0.4); direct
    // safety at 999327 ppm: medium risk.
    let safety = calculate_safety(&profile(), &get_disk_configs(), 1_000_000, 950);
    assert_eq!(safety.heap_safety, 352_126);
    assert_eq!(safety.direct_mem_safety, 999_327);
    assert_eq!(safety.risk_level, RiskLevel::Medium);
}

#[test]
fn risk_level_high_when_both_ratios_exhausted() {
    let safety = calculate_safety(&profile(), &get_disk_configs(), 1, 1);
    assert_eq!(safety.heap_safety, 0);
    assert_eq!(safety.direct_mem_safety, 0);
    assert_eq!(safety.risk_level, RiskLevel::High);
}

#[test]
fn buffer_model_tiers() {
    // Small files: 128 KB read buffer; write buffer 192 KB plus 100 KB
    // overhead; all in thousandths of a KB.
    assert_eq!(calculate_direct_mem_per_conn(5), (128_000, 292_000));
    assert_eq!(calculate_direct_mem_per_conn(10), (128_000, 292_000));
    // Medium files: 512 KB read buffer.
    assert_eq!(calculate_direct_mem_per_conn(100), (512_000, 868_000));
    // Large files: 1 MB or one per cent of the file size, whichever is
    // smaller; one per cent of anything over 100 MB is more than 1 MB, so
    // the cap binds.
    assert_eq!(calculate_direct_mem_per_conn(250), (1_024_000, 1_636_000));
    assert_eq!(calculate_direct_mem_per_conn(500_000), (1_024_000, 1_636_000));
}

#[test]
fn buffer_model_tier_boundaries() {
    // The read buffer steps at 10 MB and at 100 MB; just above 100 MB the
    // 1 MB cap takes over from the one-per-cent rule.
    assert_eq!(calculate_direct_mem_per_conn(11).0, 512_000);
    assert_eq!(calculate_direct_mem_per_conn(100).0, 512_000);
    assert_eq!(calculate_direct_mem_per_conn(101), (1_024_000, 1_636_000));
}

#[test]
fn memory_mapping_threshold_is_strictly_above_100_mb() {
    let base = Args {
        avg_file_size: 100,
        enable_memory_mapping: true,
        ..profile()
    };
    let configs = get_disk_configs();
    // At exactly 100 MB the reduction does not apply.
    let at_100 = calculate_safety(&base, &configs, 4000, 12000);
    assert_eq!(at_100.scenarios[1].direct_mem_usage, 1000 * (512_000 + 868_000));
    // At 101 MB it halves the usage.
    let at_101 = calculate_safety(&Args { avg_file_size: 101, ..base }, &configs, 4000, 12000);
    assert_eq!(at_101.scenarios[1].direct_mem_usage, 1000 * (1_024_000 + 1_636_000) / 2);
}

#[test]
fn status_label_thresholds() {
    // Budget of 1 mGB is 1048576 mKB; 70% of it is 734003.2, 85% is 891289.6.
    assert_eq!(status_label(700_000, 1, 700_000, 1), ScenarioStatus::Safe);
    assert_eq!(status_label(800_000, 1, 0, 1), ScenarioStatus::Warning);
    assert_eq!(status_label(0, 1, 800_000, 1), ScenarioStatus::Warning);
    assert_eq!(status_label(900_000, 1, 0, 1), ScenarioStatus::Danger);
    assert_eq!(status_label(0, 1, 900_000, 1), ScenarioStatus::Danger);
    // Exactly at the 70% boundary (budget 100 mGB): no longer safe.
    assert_eq!(status_label(73_400_320, 100, 0, 100), ScenarioStatus::Warning);
    assert_eq!(status_label(73_400_319, 100, 73_400_319, 100), ScenarioStatus::Safe);
    // Exactly at the 85% boundary: danger.
    assert_eq!(status_label(89_128_960, 100, 0, 100), ScenarioStatus::Danger);
    assert_eq!(status_label(89_128_959, 100, 0, 100), ScenarioStatus::Warning);
}

#[test]
fn scenarios_have_expected_shape_and_consistent_status() {
    let args = Args {
        total_ram: 32,
        cpu_cores: 16,
        net_gbps: 1,
        disk_type: DiskType::SataSsd,
        expected_connections: 1000,
        burst_factor: 3,
        avg_file_size: 10,
        enable_memory_guard: true,
        enable_memory_mapping: false,
        complexity: Complexity::Medium,
    };
    let (direct_mgb, heap_mgb) = (2560, 11200);
    let safety = calculate_safety(&args, &get_disk_configs(), direct_mgb, heap_mgb);
    assert_eq!(safety.scenarios.len(), 5);

    let names: Vec<ScenarioKind> = safety.scenarios.iter().map(|s| s.name).collect();
    assert_eq!(
        names,
        vec![
            ScenarioKind::Sustained24h,
            ScenarioKind::NormalLoad,
            ScenarioKind::BurstLoad,
            ScenarioKind::LargeFiles,
            ScenarioKind::SmallFilesHighConcurrency,
        ]
    );
    let connections: Vec<u64> = safety.scenarios.iter().map(|s| s.connections).collect();
    assert_eq!(connections, vec![1000, 1000, 3000, 500, 3000]);
    let file_sizes: Vec<u64> = safety.scenarios.iter().map(|s| s.file_size).collect();
    assert_eq!(file_sizes, vec![10240, 10240, 10240, 51200, 1024]);
    let heap: Vec<u64> = safety.scenarios.iter().map(|s| s.heap_usage).collect();
    assert_eq!(
        heap,
        vec![576_000_000, 384_000_000, 1_152_000_000, 192_000_000, 576_000_000]
    );
    let direct: Vec<u64> = safety.scenarios.iter().map(|s| s.direct_mem_usage).collect();
    assert_eq!(
        direct,
        vec![504_000_000, 420_000_000, 1_260_000_000, 210_000_000, 630_000_000]
    );

    // Every stored status must equal the status recomputed from the stored
    // usage figures alone.
    for s in &safety.scenarios {
        assert_eq!(
            s.status,
            status_label(s.heap_usage, heap_mgb, s.direct_mem_usage, direct_mgb)
        );
        assert_eq!(s.status, ScenarioStatus::Safe);
    }
}

#[test]
fn recommendations_baseline_list() {
    let args = Args {
        total_ram: 32,
        cpu_cores: 16,
        net_gbps: 1,
        disk_type: DiskType::SataSsd,
        expected_connections: 1000,
        burst_factor: 3,
        avg_file_size: 10,
        enable_memory_guard: true,
        enable_memory_mapping: false,
        complexity: Complexity::Medium,
    };
    let safety = calculate_safety(&args, &get_disk_configs(), 2560, 11200);
    assert_eq!(
        safety.recommendations,
        vec![
            Recommendation::EnableMemoryGuardThrottling,
            Recommendation::LeakRunwayEstimate { hours_tenths: 5305 },
            Recommendation::AddMemoryMonitoring,
            Recommendation::EnableGcLogAnalysis,
            Recommendation::EnableHeapDump,
        ]
    );
}

#[test]
fn recommendations_budget_increases_and_urgent_leak() {
    // Direct safety 158523 ppm and heap safety 230650 ppm: both increases
    // fire; the leak runway of 19.3 hours flags the urgent risk.
    let mut args = profile();
    args.enable_memory_guard = false;
    let safety = calculate_safety(&args, &get_disk_configs(), 800, 800);
    assert_eq!(
        safety.recommendations,
        vec![
            Recommendation::IncreaseDirectMemory { current_mgb: 800, suggested_mgb: 1040 },
            Recommendation::IncreaseHeapMemory { current_mgb: 800, suggested_mgb: 960 },
            Recommendation::LeakRunwayEstimate { hours_tenths: 193 },
            Recommendation::AddMemoryMonitoring,
            Recommendation::EnableGcLogAnalysis,
            Recommendation::EnableHeapDump,
            Recommendation::UrgentLeakRisk,
        ]
    );
}

#[test]
fn recommendations_large_files_notice() {
    let mut args = profile();
    args.avg_file_size = 60;
    args.enable_memory_guard = false;
    let safety = calculate_safety(&args, &get_disk_configs(), 4000, 12000);
    assert!(safety
        .recommendations
        .contains(&Recommendation::OptimizeLargeFileHandling));
}
