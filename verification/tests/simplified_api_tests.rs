//! Simplified overview, health assessment, and preset estimates.

use hardware_query::cpu::{CPUFeature, CPUInfo, CPUVendor};
use hardware_query::gpu::{ComputeCapabilities, GPUInfo, GPUType, GPUVendor};
use hardware_query::hardware::HardwareInfo;
use hardware_query::memory::{MemoryInfo, MemoryType};
use hardware_query::power::{PowerProfile, PowerState, ThrottlingRisk};
use hardware_query::presets::HardwarePresets;
use hardware_query::simple::{
    HealthStatus, PowerStatus, SimpleCPU, SimpleGPU, SimpleStorage, SystemHealth, SystemOverview,
    TemperatureStatus,
};
use hardware_query::storage::{StorageInfo, StorageType};
use hardware_query::thermal::{ThermalInfo, ThermalSensor, ThermalStatus};
use hardware_query::virtualization::{
    CPULimits, GPULimits, GPUPassthroughInfo, GPUPassthroughType, IOLimits, MemoryLimits,
    NetworkLimits, ResourceLimits, VirtualizationInfo, VirtualizationType,
};

fn overview_cpu(ai: bool, cores: u32) -> SimpleCPU {
    SimpleCPU {
        name: "Example 9000".to_string(),
        cores,
        threads: cores * 2,
        vendor: "Intel".to_string(),
        ai_capable: ai,
    }
}

fn overview_storage(drive_type: &str) -> SimpleStorage {
    SimpleStorage {
        total_mb: 1_000_000,
        available_mb: 600_000,
        drive_type: drive_type.to_string(),
        health: "Good".to_string(),
    }
}

fn healthy() -> SystemHealth {
    SystemHealth {
        status: HealthStatus::Excellent,
        temperature: TemperatureStatus::Normal,
        power: PowerStatus::Normal,
        warnings: Vec::new(),
    }
}

fn overview(gpu: Option<SimpleGPU>, memory_mb: u64) -> SystemOverview {
    SystemOverview {
        cpu: overview_cpu(false, 8),
        memory_mb,
        gpu,
        storage: overview_storage("NVMe"),
        health: healthy(),
        environment: "Native".to_string(),
        performance_score: 80,
    }
}

fn big_gpu() -> SimpleGPU {
    SimpleGPU {
        name: "Example RTX".to_string(),
        vram_mb: 12_288,
        vendor: "NVIDIA".to_string(),
        ai_capable: true,
    }
}

#[test]
fn test_health_status_display() {
    assert_eq!(HealthStatus::Excellent.label(), "Excellent");
    assert_eq!(HealthStatus::Good.label(), "Good");
    assert_eq!(HealthStatus::Fair.label(), "Fair");
    assert_eq!(HealthStatus::Poor.label(), "Poor");
    assert_eq!(HealthStatus::Critical.label(), "Critical");

    assert_eq!(TemperatureStatus::Normal.label(), "Normal");
    assert_eq!(TemperatureStatus::Warm.label(), "Warm");
    assert_eq!(TemperatureStatus::Hot.label(), "Hot");
    assert_eq!(TemperatureStatus::Critical.label(), "Critical");

    assert_eq!(PowerStatus::Low.label(), "Low");
    assert_eq!(PowerStatus::Normal.label(), "Normal");
    assert_eq!(PowerStatus::High.label(), "High");
    assert_eq!(PowerStatus::VeryHigh.label(), "Very High");
}

#[test]
fn ai_score_adds_its_parts() {
    // AI GPU with 12 GB (30 + 15), plain CPU with 8 cores (10),
    // 32 GB memory (25): 80 in total
    let o = overview(Some(big_gpu()), 32_768);
    assert_eq!(o.ai_score(), 80);
    // no GPU, 4 cores, AI CPU, 8 GB memory: 15 + 5 + 15 = 35
    let mut o2 = overview(None, 8192);
    o2.cpu = overview_cpu(true, 4);
    assert_eq!(o2.ai_score(), 35);
}

#[test]
fn ai_readiness() {
    assert!(overview(Some(big_gpu()), 4096).is_ai_ready());
    assert!(overview(None, 8192).is_ai_ready());
    assert!(!overview(None, 4096).is_ai_ready());
}

#[test]
fn recommendations_follow_the_rules() {
    let mut o = overview(None, 8192);
    o.storage = overview_storage("HDD");
    o.health.warnings.push("Elevated temperatures detected".to_string());
    let recs = o.get_recommendations();
    assert_eq!(recs.len(), 4);
    assert_eq!(recs[0], "Consider upgrading to 16GB+ RAM for better performance");
    assert_eq!(recs[1], "Add a dedicated GPU for AI/ML acceleration");
    assert_eq!(recs[2], "Upgrade to SSD for faster data access");
    assert_eq!(recs[3], "Elevated temperatures detected");

    let well_equipped = overview(Some(big_gpu()), 32_768);
    assert!(well_equipped.get_recommendations().is_empty());
}

#[test]
fn gaming_fps_estimate_formula() {
    // 12 GB GPU at 1080p Low: 120 * 1.0 * 1.2 = 144
    let o = overview(Some(big_gpu()), 32_768);
    assert_eq!(HardwarePresets::gaming_fps_estimate(&o, "1080p", "Low"), 144);
    // 4K Ultra: 120 * 0.4 * 0.6 = 28.8 -> 28
    assert_eq!(HardwarePresets::gaming_fps_estimate(&o, "4K", "Ultra"), 28);
    // small GPU at 4K Ultra: 30 * 0.4 * 0.6 = 7.2 -> floored to 15
    let small = SimpleGPU {
        name: "Little".to_string(),
        vram_mb: 2048,
        vendor: "AMD".to_string(),
        ai_capable: false,
    };
    let o2 = overview(Some(small), 8192);
    assert_eq!(HardwarePresets::gaming_fps_estimate(&o2, "4K", "Ultra"), 15);
    // no GPU at defaults: 15 * 1.0 * 1.0 = 15
    let o3 = overview(None, 8192);
    assert_eq!(HardwarePresets::gaming_fps_estimate(&o3, "1080p", "Medium"), 15);
    // an unrecognised setting keeps the base
    let o4 = overview(Some(big_gpu()), 8192);
    assert_eq!(HardwarePresets::gaming_fps_estimate(&o4, "720p", "Cinematic"), 120);
}

fn plain_virtualization(percent: u32) -> VirtualizationInfo {
    VirtualizationInfo {
        environment_type: VirtualizationType::Docker,
        hypervisor: None,
        container_runtime: None,
        resource_limits: ResourceLimits {
            cpu_limits: CPULimits {
                max_cores: None,
                quota_percent: None,
                shares: None,
                affinity_mask: None,
                disabled_features: Vec::new(),
            },
            memory_limits: MemoryLimits {
                max_memory_bytes: None,
                max_swap_bytes: None,
                reservation_bytes: None,
                oom_kill_disabled: false,
                numa_policy: None,
            },
            io_limits: IOLimits {
                max_read_iops: None,
                max_write_iops: None,
                max_read_bps: None,
                max_write_bps: None,
                device_weights: Vec::new(),
            },
            network_limits: NetworkLimits {
                max_bandwidth_bps: None,
                network_namespace: false,
                port_restrictions: Vec::new(),
                network_policies: Vec::new(),
            },
            gpu_limits: GPULimits {
                gpu_access: false,
                accessible_devices: Vec::new(),
                memory_limits: Vec::new(),
                capability_restrictions: Vec::new(),
            },
        },
        gpu_passthrough: GPUPassthroughInfo {
            available: false,
            passthrough_type: GPUPassthroughType::NoAccess,
            devices: Vec::new(),
            performance_overhead_percent: 0,
        },
        performance_percent: percent,
        nested_virtualization: false,
        security_features: Vec::new(),
        platform_specific: Vec::new(),
    }
}

fn full_hardware() -> HardwareInfo {
    HardwareInfo {
        cpu: CPUInfo {
            vendor: CPUVendor::AMD,
            model_name: "Example 16C".to_string(),
            brand: "Example 16C".to_string(),
            physical_cores: 16,
            logical_cores: 32,
            base_frequency: 3000,
            max_frequency: 4500,
            l1_cache_kb: 1024,
            l2_cache_kb: 8192,
            l3_cache_kb: 65536,
            features: vec![CPUFeature::AVX2, CPUFeature::FMA],
            architecture: "x86_64".to_string(),
            core_usage: Vec::new(),
            temperature_centi: None,
            power_centiw: None,
        },
        gpus: vec![GPUInfo {
            vendor: GPUVendor::NVIDIA,
            model_name: "Example RTX".to_string(),
            gpu_type: GPUType::Discrete,
            memory_mb: 16_384,
            memory_type: None,
            memory_bandwidth_mbps: None,
            base_clock: None,
            boost_clock: None,
            memory_clock: None,
            shader_units: None,
            rt_cores: None,
            tensor_cores: None,
            compute_capabilities: ComputeCapabilities {
                cuda: Some("8.9".to_string()),
                rocm: false,
                directml: false,
                opencl: true,
                vulkan: true,
                metal: false,
                compute_units: None,
                max_workgroup_size: None,
            },
            usage_percent: None,
            temperature_centi: None,
            power_centiw: None,
            power_limit_centiw: None,
            driver_version: None,
            vbios_version: None,
            pci_device_id: None,
            pci_subsystem_id: None,
        }],
        npus: Vec::new(),
        tpus: Vec::new(),
        fpgas: Vec::new(),
        memory: MemoryInfo {
            total_mb: 65_536,
            available_mb: 40_000,
            used_mb: 25_536,
            memory_type: MemoryType::DDR5,
            speed_mhz: 5600,
            channels: 2,
            ecc_support: false,
            modules: Vec::new(),
            swap_total_mb: 0,
            swap_used_mb: 0,
        },
        storage_devices: vec![
            StorageInfo {
                model: "Fast disk".to_string(),
                storage_type: StorageType::NVMe,
                capacity_mb: 2_000_000,
                available_mb: 150_000,
                used_mb: 1_850_000,
                mount_point: None,
                file_system: None,
            },
            StorageInfo {
                model: "Slow disk".to_string(),
                storage_type: StorageType::HDD,
                capacity_mb: 4_000_000,
                available_mb: 1_000_000,
                used_mb: 3_000_000,
                mount_point: None,
                file_system: None,
            },
        ],
        network_interfaces: Vec::new(),
        battery: None,
        thermal: ThermalInfo {
            sensors: vec![ThermalSensor {
                name: "cpu0".to_string(),
                temperature_centi: 8200,
                critical_temperature_centi: None,
                max_temperature_centi: None,
                sensor_type: "CPU".to_string(),
                temperature_history: Vec::new(),
            }],
            fans: Vec::new(),
            thermal_status: ThermalStatus::Hot,
            ambient_temperature_centi: None,
            tdp_info: None,
        },
        pci_devices: Vec::new(),
        usb_devices: Vec::new(),
        virtualization: plain_virtualization(90),
        power_profile: Some(PowerProfile {
            total_power_draw_centiw: Some(25_000),
            cpu_power_centiw: None,
            gpu_power_centiw: None,
            efficiency_percent: 70,
            thermal_throttling_risk: ThrottlingRisk::Low,
            power_state: PowerState::HighPerformance,
            available_power_modes: Vec::new(),
        }),
    }
}

#[test]
fn overview_from_hardware_info() {
    let hw = full_hardware();
    let o = SystemOverview::from_hardware_info(&hw).unwrap();
    assert_eq!(o.cpu.name, "Example 16C");
    assert_eq!(o.cpu.cores, 16);
    assert_eq!(o.cpu.threads, 32);
    assert_eq!(o.cpu.vendor, "AMD");
    assert!(o.cpu.ai_capable);
    assert_eq!(o.memory_mb, 65_536);
    let gpu = o.gpu.as_ref().unwrap();
    assert_eq!(gpu.name, "Example RTX");
    assert_eq!(gpu.vram_mb, 16_384);
    assert!(gpu.ai_capable);
    // storage summary: totals across both devices; first device leads
    assert_eq!(o.storage.total_mb, 6_000_000);
    assert_eq!(o.storage.available_mb, 1_150_000);
    assert_eq!(o.storage.drive_type, "NVMe");
    // 1.15 / 6.0 is below one fifth
    assert_eq!(o.storage.health, "Warning - Low space");
    // 82 degrees with a 250 W draw: hot and very high power -> poor
    assert_eq!(o.health.temperature, TemperatureStatus::Hot);
    assert_eq!(o.health.power, PowerStatus::VeryHigh);
    assert_eq!(o.health.status, HealthStatus::Poor);
    assert_eq!(o.health.warnings, vec!["Elevated temperatures detected".to_string()]);
    assert_eq!(o.environment, "Docker");
    // raw score 30 + 25 + 30 + 15 = 100, scaled by 90 percent
    assert_eq!(o.performance_score, 90);
}

#[test]
fn storage_summary_without_devices_is_unknown() {
    let mut hw = full_hardware();
    hw.storage_devices = Vec::new();
    let s = SystemOverview::calculate_storage_summary(&hw);
    assert_eq!(s.total_mb, 0);
    assert_eq!(s.available_mb, 0);
    assert_eq!(s.drive_type, "Unknown");
    assert_eq!(s.health, "Unknown");
}

#[test]
fn health_is_excellent_on_a_cool_quiet_machine() {
    let mut hw = full_hardware();
    hw.thermal.sensors[0].temperature_centi = 4500;
    hw.power_profile = None;
    let h = SystemOverview::assess_system_health(&hw);
    assert_eq!(h.temperature, TemperatureStatus::Normal);
    assert_eq!(h.power, PowerStatus::Normal);
    assert_eq!(h.status, HealthStatus::Excellent);
    assert!(h.warnings.is_empty());
}

#[test]
fn gpu_ai_capability_rules() {
    let mut gpu = full_hardware().gpus.remove(0);
    assert!(SystemOverview::check_gpu_ai_capabilities(&gpu));
    gpu.vendor = GPUVendor::AMD;
    gpu.model_name = "Radeon RX 7900".to_string();
    assert!(SystemOverview::check_gpu_ai_capabilities(&gpu));
    gpu.vendor = GPUVendor::Intel;
    gpu.model_name = "Arc A770".to_string();
    assert!(SystemOverview::check_gpu_ai_capabilities(&gpu));
    gpu.model_name = "UHD 630".to_string();
    assert!(!SystemOverview::check_gpu_ai_capabilities(&gpu));
}
