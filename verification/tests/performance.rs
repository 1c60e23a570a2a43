use sa::analysis::performance::{
    calculate_performance, KeyFinding, PerfScenarioKind, ResourceName,
};
use sa::args::{Args, Complexity, DiskType};
use sa::config::get_disk_configs;

fn profile() -> Args {
    Args {
        total_ram: 32,
        cpu_cores: 16,
        net_gbps: 1,
        disk_type: DiskType::SataSsd,
        avg_file_size: 10,
        expected_connections: 1000,
        burst_factor: 3,
        enable_memory_guard: true,
        enable_memory_mapping: false,
        complexity: Complexity::Medium,
    }
}

#[test]
fn performance_report_concrete_values() {
    let args = profile();
    let configs = get_disk_configs();
    let report = calculate_performance(&args, configs.get(args.disk_type), 2560, 11200);

    assert_eq!(report.scenarios.len(), 2);

    let mixed = &report.scenarios[0];
    assert_eq!(mixed.name, PerfScenarioKind::MixedFileSizes);
    assert_eq!(mixed.avg_file_size, 30);
    // 1 Gbps at 30 MB per transfer: 3 connections; 300 MB/s disk: 6; CPU: 453.
    assert_eq!(mixed.resources.len(), 4);
    let net = &mixed.resources[0];
    assert_eq!(net.name, ResourceName::NetworkBandwidth);
    assert_eq!(net.max_connections, 3);
    assert_eq!(net.qps, Some(3));
    assert!(net.limiting_factor);
    let disk = &mixed.resources[1];
    assert_eq!(disk.name, ResourceName::DiskIo);
    assert_eq!(disk.max_connections, 6);
    assert_eq!(disk.qps, Some(6));
    assert!(!disk.limiting_factor);
    let mem = &mixed.resources[2];
    assert_eq!(mem.name, ResourceName::DirectMemory);
    // (2560 + 11200) mGB at 0.5 MB per connection.
    assert_eq!(mem.max_connections, 28_180);
    assert_eq!(mem.qps, None);
    assert!(!mem.limiting_factor);
    let cpu = &mixed.resources[3];
    assert_eq!(cpu.name, ResourceName::CpuThreads);
    assert_eq!(cpu.max_connections, 453);
    assert_eq!(cpu.qps, Some(14_949));
    assert!(!cpu.limiting_factor);

    assert_eq!(mixed.final_capacity.name, ResourceName::NetworkBandwidth);
    assert_eq!(mixed.final_capacity.max_connections, 3);
    assert_eq!(mixed.final_capacity.qps, Some(3));
    assert_eq!(
        mixed.key_findings[0],
        KeyFinding::BottleneckIdentified {
            large_file: true,
            avg_file_size_mb: 30,
            resource: ResourceName::NetworkBandwidth,
            qps: 3,
        }
    );
    assert_eq!(
        mixed.key_findings[1],
        KeyFinding::DirectMemoryAssessment {
            direct_mem_estimate_mgb: 2560,
            mem_connections: 28_180,
        }
    );

    let small = &report.scenarios[1];
    assert_eq!(small.name, PerfScenarioKind::SmallFilesMostly);
    assert_eq!(small.avg_file_size, 5);
    assert_eq!(small.final_capacity.name, ResourceName::NetworkBandwidth);
    assert_eq!(small.final_capacity.max_connections, 23);
    assert_eq!(small.final_capacity.qps, Some(23));
    assert_eq!(
        small.key_findings[0],
        KeyFinding::BottleneckIdentified {
            large_file: false,
            avg_file_size_mb: 5,
            resource: ResourceName::NetworkBandwidth,
            qps: 23,
        }
    );

    assert_eq!(report.test_config.threads, 32);
    assert_eq!(report.test_config.duration, "10m");
    assert_eq!(report.test_config.ramp_up, "1m");
    // The lowest final-capacity QPS of the two scenarios.
    assert_eq!(report.test_config.throughput_goal, 3);
}

#[test]
fn cpu_bound_when_bandwidth_and_disk_are_plentiful() {
    let mut args = profile();
    args.net_gbps = 1000;
    args.cpu_cores = 1;
    let configs = get_disk_configs();
    let report = calculate_performance(&args, configs.get(DiskType::Nvme), 2560, 11200);
    // At 30 MB: network 3849, disk (1500 MB/s) 34, CPU 28 with QPS 28 * 33.
    let mixed = &report.scenarios[0];
    assert_eq!(mixed.final_capacity.name, ResourceName::CpuThreads);
    assert_eq!(mixed.final_capacity.max_connections, 28);
    assert_eq!(mixed.final_capacity.qps, Some(924));
}
