use sa::args::{validate_disk_type, AnalysisError, DiskType};
use sa::budget::derive_memory_budget;
use sa::config::get_disk_configs;
use sa::utils::Repeated;
use sa::args::{Args, Complexity};

#[test]
fn validate_disk_type_accepts_the_three_names() {
    assert_eq!(validate_disk_type("sata_hdd"), Ok(DiskType::SataHdd));
    assert_eq!(validate_disk_type("sata_ssd"), Ok(DiskType::SataSsd));
    assert_eq!(validate_disk_type("nvme"), Ok(DiskType::Nvme));
}

#[test]
fn validate_disk_type_rejects_everything_else() {
    assert_eq!(
        validate_disk_type("floppy"),
        Err(AnalysisError::InvalidDiskType("floppy".to_string()))
    );
    assert_eq!(
        validate_disk_type(""),
        Err(AnalysisError::InvalidDiskType(String::new()))
    );
    assert_eq!(
        validate_disk_type("SATA_HDD"),
        Err(AnalysisError::InvalidDiskType("SATA_HDD".to_string()))
    );
    assert_eq!(
        validate_disk_type("sata_hddd"),
        Err(AnalysisError::InvalidDiskType("sata_hddd".to_string()))
    );
    assert_eq!(
        validate_disk_type("nvme2"),
        Err(AnalysisError::InvalidDiskType("nvme2".to_string()))
    );
}

#[test]
fn disk_table_rows() {
    let configs = get_disk_configs();
    let hdd = configs.get(DiskType::SataHdd);
    assert_eq!((hdd.read_speed, hdd.write_speed, hdd.iops), (120, 100, 200));
    let ssd = configs.get(DiskType::SataSsd);
    assert_eq!((ssd.read_speed, ssd.write_speed, ssd.iops), (300, 250, 100_000));
    let nvme = configs.get(DiskType::Nvme);
    assert_eq!((nvme.read_speed, nvme.write_speed, nvme.iops), (1500, 1200, 500_000));
}

#[test]
fn budget_ratios_by_complexity() {
    let base = Args {
        total_ram: 100,
        cpu_cores: 16,
        net_gbps: 1,
        disk_type: DiskType::SataSsd,
        avg_file_size: 10,
        expected_connections: 1000,
        burst_factor: 3,
        enable_memory_guard: true,
        enable_memory_mapping: false,
        complexity: Complexity::Low,
    };
    let low = derive_memory_budget(&base);
    assert_eq!((low.direct_mem_mgb, low.heap_mem_mgb), (6000, 40_000));

    let medium = derive_memory_budget(&Args { complexity: Complexity::Medium, ..base });
    assert_eq!((medium.direct_mem_mgb, medium.heap_mem_mgb), (8000, 35_000));

    let high = derive_memory_budget(&Args { complexity: Complexity::High, ..base });
    assert_eq!((high.direct_mem_mgb, high.heap_mem_mgb), (12_000, 30_000));
}

#[test]
fn budget_floors_for_small_machines() {
    let tiny = Args {
        total_ram: 1,
        cpu_cores: 1,
        net_gbps: 1,
        disk_type: DiskType::SataSsd,
        avg_file_size: 1,
        expected_connections: 1,
        burst_factor: 1,
        enable_memory_guard: false,
        enable_memory_mapping: false,
        complexity: Complexity::Medium,
    };
    let budget = derive_memory_budget(&tiny);
    // 8% and 35% of 1 GB fall below the guaranteed minimums of 1 GB direct
    // and 4 GB heap.
    assert_eq!(budget.direct_mem_mgb, 1000);
    assert_eq!(budget.heap_mem_mgb, 4000);
}

#[test]
fn repeated_builds_separator_rules() {
    assert_eq!("ab".repeated(3), "ababab");
    assert_eq!("x".repeated(0), "");
    assert_eq!("".repeated(5), "");
}
