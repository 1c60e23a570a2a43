use sa::analysis::{
    calculate_base_metaspace, calculate_connection_factor, calculate_file_size_factor,
    calculate_metaspace, get_complexity_factor, get_safety_margin, MAX_METASPACE_MB,
    MIN_METASPACE_MB,
};
use sa::args::{Args, Complexity, DiskType};

fn create_test_args(complexity: Complexity, connections: u64, file_size: u64) -> Args {
    Args {
        complexity,
        expected_connections: connections,
        avg_file_size: file_size,
        total_ram: 0,
        cpu_cores: 0,
        net_gbps: 0,
        disk_type: DiskType::SataSsd,
        burst_factor: 0,
        enable_memory_guard: false,
        enable_memory_mapping: false,
    }
}

#[test]
fn test_calculate_base_metaspace() {
    let low = create_test_args(Complexity::Low, 1000, 10);
    let medium = create_test_args(Complexity::Medium, 1000, 10);
    let high = create_test_args(Complexity::High, 1000, 10);

    // Base metaspace in tenths of MB: 256 MB scaled by the complexity factor.
    assert_eq!(calculate_base_metaspace(&low), 2048); // 256 MB * 0.8
    assert_eq!(calculate_base_metaspace(&medium), 2560); // 256 MB * 1.0
    assert_eq!(calculate_base_metaspace(&high), 3840); // 256 MB * 1.5
}

#[test]
fn test_calculate_connection_factor() {
    let args = create_test_args(Complexity::Medium, 1500, 10);
    // 1000-1999 connections = 1x factor (30 MB), in tenths of MB.
    assert_eq!(calculate_connection_factor(&args), 300);

    let args = create_test_args(Complexity::Medium, 3500, 10);
    // 3000-3999 connections = 3x factor (90 MB), in tenths of MB.
    assert_eq!(calculate_connection_factor(&args), 900);
}

#[test]
fn test_calculate_file_size_factor() {
    let args = create_test_args(Complexity::Medium, 1000, 60);
    // ln(60) * 10 rounds to 41 MB.
    assert_eq!(calculate_file_size_factor(&args), 41);

    let args = create_test_args(Complexity::Medium, 1000, 250);
    // 250 / 100 floors to 2, times 20 MB.
    assert_eq!(calculate_file_size_factor(&args), 40);
}

#[test]
fn test_calculate_metaspace_boundaries() {
    // Test minimum boundary
    let args = create_test_args(Complexity::Low, 100, 1);
    let result = calculate_metaspace(&args);
    assert!(result >= (MIN_METASPACE_MB as f64 * 1.3) as i32); // With safety margin
    assert!(result <= MAX_METASPACE_MB as i32);

    // Test maximum boundary
    let args = create_test_args(Complexity::High, 10000, 500);
    let result = calculate_metaspace(&args);
    assert!(result <= MAX_METASPACE_MB as i32);

    // Test thread factor
    let args = Args { cpu_cores: 16, ..create_test_args(Complexity::Medium, 1000, 10) };
    let result = calculate_metaspace(&args);
    assert!(result > 300); // Should include thread overhead
}

#[test]
fn test_calculate_metaspace_normal_case() {
    let args = create_test_args(Complexity::Medium, 2000, 50);
    // (256 MB base + 60 MB connections + 39 MB log increment) * 1.3 margin,
    // rounded up: 462 MB.
    assert_eq!(calculate_metaspace(&args), 462);
}

#[test]
fn test_calculate_metaspace_upper_clamp() {
    // 100000 connections contribute 3000 MB before the margin: the result
    // hits the 3072 MB cap exactly.
    let args = create_test_args(Complexity::High, 100_000, 500);
    assert_eq!(calculate_metaspace(&args), MAX_METASPACE_MB as i32);
}

#[test]
fn complexity_factor_and_margin_boundaries() {
    // The multiplier depends on the complexity class alone: medium is
    // exactly 1.0 whatever the file size.
    assert_eq!(get_complexity_factor(&create_test_args(Complexity::Medium, 1000, 50)), 10);
    assert_eq!(get_complexity_factor(&create_test_args(Complexity::Medium, 1000, 51)), 10);
    assert_eq!(get_complexity_factor(&create_test_args(Complexity::High, 1000, 1)), 15);
    assert_eq!(get_complexity_factor(&create_test_args(Complexity::Low, 1000, 1000)), 8);

    // The safety margin steps at 50 MB and at 100 MB.
    assert_eq!(get_safety_margin(&create_test_args(Complexity::Medium, 1000, 50)), 13);
    assert_eq!(get_safety_margin(&create_test_args(Complexity::Medium, 1000, 51)), 14);
    assert_eq!(get_safety_margin(&create_test_args(Complexity::Medium, 1000, 100)), 14);
    assert_eq!(get_safety_margin(&create_test_args(Complexity::Medium, 1000, 101)), 15);
}

#[test]
fn connection_factor_steps_at_full_thousands() {
    assert_eq!(calculate_connection_factor(&create_test_args(Complexity::Medium, 999, 10)), 0);
    assert_eq!(calculate_connection_factor(&create_test_args(Complexity::Medium, 1000, 10)), 300);
    assert_eq!(calculate_connection_factor(&create_test_args(Complexity::Medium, 1999, 10)), 300);
}

#[test]
fn file_size_factor_tier_boundaries() {
    // Small tier up to 10 MB, logarithmic tier up to 100 MB, then the
    // linear-but-decelerating tier restarts low.
    assert_eq!(calculate_file_size_factor(&create_test_args(Complexity::Medium, 1000, 10)), 20);
    assert_eq!(calculate_file_size_factor(&create_test_args(Complexity::Medium, 1000, 11)), 24);
    assert_eq!(calculate_file_size_factor(&create_test_args(Complexity::Medium, 1000, 100)), 46);
    assert_eq!(calculate_file_size_factor(&create_test_args(Complexity::Medium, 1000, 101)), 20);
    assert_eq!(calculate_file_size_factor(&create_test_args(Complexity::Medium, 1000, 199)), 20);
    assert_eq!(calculate_file_size_factor(&create_test_args(Complexity::Medium, 1000, 200)), 40);
}

#[test]
fn test_metaspace_always_in_clamp_range() {
    let cases = [
        (Complexity::Low, 1, 1),
        (Complexity::Medium, 1_000_000_000, 1_000_000),
        (Complexity::High, 999, 99),
        (Complexity::Medium, 50_000, 101),
    ];
    for (complexity, connections, file_size) in cases {
        let args = create_test_args(complexity, connections, file_size);
        let result = calculate_metaspace(&args);
        assert!(result >= MIN_METASPACE_MB as i32);
        assert!(result <= MAX_METASPACE_MB as i32);
    }
}
