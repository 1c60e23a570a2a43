use sa::analysis::performance::calculate_performance;
use sa::analysis::safety::{calculate_safety, RiskLevel};
use sa::analysis::{calculate_file_size_factor, calculate_metaspace};
use sa::args::{Args, Complexity, DiskType};
use sa::budget::derive_memory_budget;
use sa::config::get_disk_configs;

fn reference_profile() -> Args {
    Args {
        total_ram: 32,
        cpu_cores: 16,
        net_gbps: 1,
        disk_type: DiskType::SataSsd,
        avg_file_size: 10,
        expected_connections: 1000,
        burst_factor: 3,
        enable_memory_guard: true,
        enable_memory_mapping: false,
        complexity: Complexity::Medium,
    }
}

#[test]
fn engine_is_deterministic_across_runs() {
    let args1 = reference_profile();
    let args2 = reference_profile();
    let configs = get_disk_configs();

    let budget1 = derive_memory_budget(&args1);
    let budget2 = derive_memory_budget(&args2);
    assert_eq!(budget1, budget2);

    assert_eq!(calculate_metaspace(&args1), calculate_metaspace(&args2));

    let safety1 = calculate_safety(&args1, &configs, budget1.direct_mem_mgb, budget1.heap_mem_mgb);
    let safety2 = calculate_safety(&args2, &configs, budget2.direct_mem_mgb, budget2.heap_mem_mgb);
    assert_eq!(safety1, safety2);

    let report1 = calculate_performance(
        &args1,
        configs.get(args1.disk_type),
        budget1.direct_mem_mgb,
        budget1.heap_mem_mgb,
    );
    let report2 = calculate_performance(
        &args2,
        configs.get(args2.disk_type),
        budget2.direct_mem_mgb,
        budget2.heap_mem_mgb,
    );
    assert_eq!(report1, report2);
}

#[test]
fn reference_profile_scenario() {
    // 32 GB RAM, 16 cores, 1 Gbps, SATA SSD, 10 MB files, 1000 connections,
    // burst 3, medium complexity: the default budget ratios give 8% direct
    // and 35% heap.
    let args = reference_profile();
    let budget = derive_memory_budget(&args);
    assert_eq!(budget.direct_mem_mgb, 2560); // 0.08 * 32 GB
    assert_eq!(budget.heap_mem_mgb, 11200); // 0.35 * 32 GB
    assert_eq!(budget.metaspace_mb, 440);
    assert_eq!(calculate_metaspace(&args), 440);

    let safety = calculate_safety(
        &args,
        &get_disk_configs(),
        budget.direct_mem_mgb,
        budget.heap_mem_mgb,
    );
    assert!(safety.heap_safety > 0);
    assert!(safety.direct_mem_safety > 0);
    assert_eq!(safety.heap_safety, 945_047);
    assert_eq!(safety.direct_mem_safety, 737_039);
    assert_eq!(safety.risk_level, RiskLevel::Low);
}

#[test]
fn large_files_take_the_nonlinear_metaspace_branch() {
    let mut args = reference_profile();
    args.avg_file_size = 250;
    // The large-file branch: 250 / 100 floors to 2, times 20 MB; not the
    // logarithmic medium-file increment.
    assert_eq!(calculate_file_size_factor(&args), 40);
}

#[test]
fn memory_mapping_reduces_direct_usage_for_large_files() {
    let mut mapped = reference_profile();
    mapped.avg_file_size = 250;
    mapped.enable_memory_mapping = true;
    let mut unmapped = mapped.clone();
    unmapped.enable_memory_mapping = false;

    let configs = get_disk_configs();
    let with_mapping = calculate_safety(&mapped, &configs, 2560, 11200);
    let without_mapping = calculate_safety(&unmapped, &configs, 2560, 11200);

    // The normal-load scenario stores the modeled direct-memory usage:
    // 1000 connections at 2.66 MB per connection, halved by mapping.
    let mapped_usage = with_mapping.scenarios[1].direct_mem_usage;
    let unmapped_usage = without_mapping.scenarios[1].direct_mem_usage;
    assert!(mapped_usage < unmapped_usage);
    assert_eq!(unmapped_usage, 2_660_000_000);
    assert_eq!(mapped_usage, 1_330_000_000);

    // Burst usage is computed identically at the burst connection count,
    // so the halving applies there too.
    let mapped_burst = with_mapping.scenarios[2].direct_mem_usage;
    let unmapped_burst = without_mapping.scenarios[2].direct_mem_usage;
    assert!(mapped_burst < unmapped_burst);
    assert_eq!(unmapped_burst, 7_980_000_000);
    assert_eq!(mapped_burst, 3_990_000_000);

    // Heap usage is untouched by the flag.
    assert_eq!(
        with_mapping.scenarios[1].heap_usage,
        without_mapping.scenarios[1].heap_usage
    );
}

#[test]
fn memory_mapping_has_no_effect_on_small_files() {
    let mut mapped = reference_profile();
    mapped.enable_memory_mapping = true;
    let mut unmapped = mapped.clone();
    unmapped.enable_memory_mapping = false;

    let configs = get_disk_configs();
    let with_mapping = calculate_safety(&mapped, &configs, 2560, 11200);
    let without_mapping = calculate_safety(&unmapped, &configs, 2560, 11200);
    assert_eq!(
        with_mapping.scenarios[1].direct_mem_usage,
        without_mapping.scenarios[1].direct_mem_usage
    );
}
