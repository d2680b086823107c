use sysdiag::snapshot::{
    build_system_snapshot, CpuReading, HostIdentity, MemoryCounters, NetworkIface,
};

fn ident() -> HostIdentity {
    HostIdentity {
        os_name: Some("TestOS".to_string()),
        hostname: Some("host1".to_string()),
        kernel_version: None,
        os_version: Some("1.2".to_string()),
        cpu_arch: "x86_64".to_string(),
    }
}

fn mem() -> MemoryCounters {
    MemoryCounters {
        total_memory: 16_000_000_000,
        used_memory: 8_000_000_000,
        total_swap: 2_000_000_000,
        used_swap: 1_000_000,
        uptime: 3600,
    }
}

fn reading(name: &str, usage_centi: u32, frequency: u64) -> CpuReading {
    CpuReading {
        name: name.to_string(),
        brand: "TestBrand 9000".to_string(),
        usage_centi,
        frequency,
    }
}

#[test]
fn logical_cores_equal_core_list_length() {
    let cpus = vec![reading("cpu0", 1000, 2400), reading("cpu1", 2000, 2400), reading("cpu2", 4000, 3000)];
    let snap = build_system_snapshot(ident(), cpus, Some(2), mem(), vec![], vec![]);
    assert_eq!(snap.cpu_logical_cores, 3);
    assert_eq!(snap.cpu_cores.len(), 3);
    assert_eq!(snap.cpu_cores[0].name, "cpu0");
    assert_eq!(snap.cpu_cores[2].usage_centi, 4000);
    assert_eq!(snap.cpu_cores[1].frequency, 2400);
}

#[test]
fn aggregate_usage_is_the_mean_of_core_usages() {
    let cpus = vec![reading("cpu0", 1000, 1), reading("cpu1", 2000, 1), reading("cpu2", 4000, 1)];
    let snap = build_system_snapshot(ident(), cpus, None, mem(), vec![], vec![]);
    // (1000 + 2000 + 4000) / 3, in hundredths of a percent.
    assert_eq!(snap.cpu_usage_centi, 2333);
    let as_percent = snap.cpu_usage_centi as f32 / 100.0;
    assert!((as_percent - 23.33).abs() < 0.01);
}

#[test]
fn no_cores_means_zero_usage_and_unknown_brand() {
    let snap = build_system_snapshot(ident(), vec![], None, mem(), vec![], vec![]);
    assert_eq!(snap.cpu_logical_cores, 0);
    assert_eq!(snap.cpu_usage_centi, 0);
    assert_eq!(snap.cpu_brand, "Unknown");
    assert!(snap.cpu_cores.is_empty());
}

#[test]
fn brand_comes_from_the_first_core() {
    let cpus = vec![reading("cpu0", 0, 1)];
    let snap = build_system_snapshot(ident(), cpus, None, mem(), vec![], vec![]);
    assert_eq!(snap.cpu_brand, "TestBrand 9000");
}

#[test]
fn counters_and_interfaces_pass_through() {
    let ifaces = vec![NetworkIface {
        name: "eth0".to_string(),
        received: 123,
        transmitted: 456,
    }];
    let snap = build_system_snapshot(ident(), vec![], Some(8), mem(), ifaces, vec![]);
    assert_eq!(snap.os_name, Some("TestOS".to_string()));
    assert_eq!(snap.hostname, Some("host1".to_string()));
    assert_eq!(snap.kernel_version, None);
    assert_eq!(snap.cpu_arch, "x86_64");
    assert_eq!(snap.cpu_physical_cores, Some(8));
    assert_eq!(snap.total_memory, 16_000_000_000);
    assert_eq!(snap.used_memory, 8_000_000_000);
    assert_eq!(snap.total_swap, 2_000_000_000);
    assert_eq!(snap.used_swap, 1_000_000);
    assert_eq!(snap.uptime, 3600);
    assert_eq!(snap.network_ifaces.len(), 1);
    assert_eq!(snap.network_ifaces[0].name, "eth0");
    assert_eq!(snap.network_ifaces[0].received, 123);
    assert_eq!(snap.network_ifaces[0].transmitted, 456);
    assert!(snap.gpus.is_empty());
}
