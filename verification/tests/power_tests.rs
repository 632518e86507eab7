//! Power optimization suggestions, battery wear, and query summaries.

use hardware_query::builder::HardwareQueryBuilder;
use hardware_query::battery::{BatteryInfo, BatteryStatus};
use hardware_query::hardware::HardwareInfo;
use hardware_query::cpu::{CPUInfo, CPUVendor};
use hardware_query::memory::{MemoryInfo, MemoryType};
use hardware_query::power::{
    OptimizationCategory, OptimizationPriority, PowerProfile, PowerState, ThrottlingRisk,
};
use hardware_query::storage::{StorageInfo, StorageType};
use hardware_query::thermal::{ThermalInfo, ThermalStatus};
use hardware_query::virtualization::{
    CPULimits, GPULimits, GPUPassthroughInfo, GPUPassthroughType, IOLimits, MemoryLimits,
    NetworkLimits, ResourceLimits, VirtualizationInfo, VirtualizationType,
};

fn profile(cpu: Option<u64>, gpu: Option<u64>, risk: ThrottlingRisk) -> PowerProfile {
    PowerProfile {
        total_power_draw_centiw: None,
        cpu_power_centiw: cpu,
        gpu_power_centiw: gpu,
        efficiency_percent: 50,
        thermal_throttling_risk: risk,
        power_state: PowerState::Balanced,
        available_power_modes: Vec::new(),
    }
}

#[test]
fn power_optimizations_follow_draw_and_risk() {
    // 60 W CPU, 120 W GPU, high risk: all three suggestions, in order
    let p = profile(Some(6000), Some(12_000), ThrottlingRisk::High);
    let opts = p.suggest_power_optimizations();
    assert_eq!(opts.len(), 3);
    assert_eq!(opts[0].category, OptimizationCategory::CPUScaling);
    assert_eq!(opts[0].expected_savings_centiw, Some(1200));
    assert_eq!(opts[0].performance_kept_percent, 85);
    assert_eq!(opts[1].category, OptimizationCategory::GPUPowerLimit);
    assert_eq!(opts[1].expected_savings_centiw, Some(1800));
    assert_eq!(opts[2].category, OptimizationCategory::ThermalManagement);
    assert_eq!(opts[2].priority, OptimizationPriority::Critical);

    // moderate risk alone
    let p = profile(Some(4000), None, ThrottlingRisk::Moderate);
    let opts = p.suggest_power_optimizations();
    assert_eq!(opts.len(), 1);
    assert_eq!(opts[0].category, OptimizationCategory::ThermalManagement);
    assert_eq!(opts[0].priority, OptimizationPriority::Medium);

    // nothing to do
    assert!(profile(None, None, ThrottlingRisk::NoRisk).suggest_power_optimizations().is_empty());
}

#[test]
fn battery_wear_and_replacement() {
    let mut b = BatteryInfo {
        status: BatteryStatus::Discharging,
        charge_percent: 55,
        health_percent: None,
        design_capacity_mwh: Some(50_000),
        full_capacity_mwh: Some(38_000),
        technology: None,
    };
    // lost 12 of 50 Wh: 24 percent wear, above the replacement bar
    assert_eq!(b.wear_percent(), Some(24));
    assert!(b.needs_replacement());
    // a reported health figure wins over the wear estimate
    b.health_percent = Some(85);
    assert!(!b.needs_replacement());
    b.health_percent = None;
    b.full_capacity_mwh = Some(45_000);
    assert_eq!(b.wear_percent(), Some(10));
    assert!(!b.needs_replacement());
    b.design_capacity_mwh = None;
    assert_eq!(b.wear_percent(), None);
    assert!(!b.needs_replacement());
}

#[test]
fn storage_usage_percent() {
    let s = StorageInfo {
        model: "disk".to_string(),
        storage_type: StorageType::SSD,
        capacity_mb: 1000,
        available_mb: 250,
        used_mb: 750,
        mount_point: None,
        file_system: None,
    };
    assert_eq!(s.usage_percent(), 75);
    assert!(s.has_free_space(250));
    assert!(!s.has_free_space(251));
    let empty = StorageInfo { capacity_mb: 0, used_mb: 0, ..s };
    assert_eq!(empty.usage_percent(), 0);
}

fn bare_hardware() -> HardwareInfo {
    HardwareInfo {
        cpu: CPUInfo {
            vendor: CPUVendor::Intel,
            model_name: "Example".to_string(),
            brand: "Example".to_string(),
            physical_cores: 4,
            logical_cores: 8,
            base_frequency: 2000,
            max_frequency: 4000,
            l1_cache_kb: 0,
            l2_cache_kb: 0,
            l3_cache_kb: 0,
            features: Vec::new(),
            architecture: "x86_64".to_string(),
            core_usage: Vec::new(),
            temperature_centi: None,
            power_centiw: None,
        },
        gpus: Vec::new(),
        npus: Vec::new(),
        tpus: Vec::new(),
        fpgas: Vec::new(),
        memory: MemoryInfo {
            total_mb: 8192,
            available_mb: 4096,
            used_mb: 4096,
            memory_type: MemoryType::DDR4,
            speed_mhz: 2400,
            channels: 2,
            ecc_support: false,
            modules: Vec::new(),
            swap_total_mb: 0,
            swap_used_mb: 0,
        },
        storage_devices: Vec::new(),
        network_interfaces: Vec::new(),
        battery: None,
        thermal: ThermalInfo {
            sensors: Vec::new(),
            fans: Vec::new(),
            thermal_status: ThermalStatus::Unknown,
            ambient_temperature_centi: None,
            tdp_info: None,
        },
        pci_devices: Vec::new(),
        usb_devices: Vec::new(),
        virtualization: VirtualizationInfo {
            environment_type: VirtualizationType::Native,
            hypervisor: None,
            container_runtime: None,
            resource_limits: ResourceLimits {
                cpu_limits: CPULimits {
                    max_cores: None,
                    quota_percent: None,
                    shares: None,
                    affinity_mask: None,
                    disabled_features: Vec::new(),
                },
                memory_limits: MemoryLimits {
                    max_memory_bytes: None,
                    max_swap_bytes: None,
                    reservation_bytes: None,
                    oom_kill_disabled: false,
                    numa_policy: None,
                },
                io_limits: IOLimits {
                    max_read_iops: None,
                    max_write_iops: None,
                    max_read_bps: None,
                    max_write_bps: None,
                    device_weights: Vec::new(),
                },
                network_limits: NetworkLimits {
                    max_bandwidth_bps: None,
                    network_namespace: false,
                    port_restrictions: Vec::new(),
                    network_policies: Vec::new(),
                },
                gpu_limits: GPULimits {
                    gpu_access: false,
                    accessible_devices: Vec::new(),
                    memory_limits: Vec::new(),
                    capability_restrictions: Vec::new(),
                },
            },
            gpu_passthrough: GPUPassthroughInfo {
                available: false,
                passthrough_type: GPUPassthroughType::NoAccess,
                devices: Vec::new(),
                performance_overhead_percent: 0,
            },
            performance_percent: 100,
            nested_virtualization: false,
            security_features: Vec::new(),
            platform_specific: Vec::new(),
        },
        power_profile: None,
    }
}

#[test]
fn selective_query_keeps_requested_components() {
    let hw = bare_hardware();
    let builder = HardwareQueryBuilder::new().with_cpu().with_memory().with_thermal();
    let custom = builder.select_components(&hw, 42, 7);
    assert!(custom.cpu.is_some());
    assert!(custom.memory.is_some());
    assert!(custom.thermal.is_some());
    assert!(custom.virtualization.is_none());
    assert!(custom.gpus.is_empty());
    assert_eq!(custom.timestamp_ms, 42);
    assert_eq!(custom.query_time_ms, 7);
    assert_eq!(custom.component_count(), 3);
    assert_eq!(
        custom.requested_components,
        vec!["CPU".to_string(), "Memory".to_string(), "Thermal".to_string()]
    );
    assert!(custom.has_component("cpu"));
    assert!(custom.has_component("THERMAL"));
    assert!(!custom.has_component("GPU"));
    assert_eq!(custom.query_summary(), "Queried 3 components in 7ms: CPU, Memory, Thermal");
}

#[test]
fn empty_query_summary() {
    let hw = bare_hardware();
    let custom = HardwareQueryBuilder::new().select_components(&hw, 0, 0);
    assert_eq!(custom.component_count(), 0);
    assert_eq!(custom.query_summary(), "Queried 0 components in 0ms: ");
}
