//! Lifecycle, tick, dispatch and statistics behaviour of the monitor.

use hardware_query::cpu::{CPUInfo, CPUVendor};
use hardware_query::dispatch::Received;
use hardware_query::error::HardwareQueryError;
use hardware_query::events::MonitoringEvent;
use hardware_query::hardware::HardwareInfo;
use hardware_query::memory::{MemoryInfo, MemoryType};
use hardware_query::monitoring::{HardwareMonitor, MonitoringConfig};
use hardware_query::power::{PowerProfile, PowerState, ThrottlingRisk};
use hardware_query::thermal::{ThermalInfo, ThermalSensor, ThermalStatus};
use hardware_query::virtualization::{
    CPULimits, GPULimits, GPUPassthroughInfo, GPUPassthroughType, IOLimits, MemoryLimits,
    NetworkLimits, ResourceLimits, VirtualizationInfo, VirtualizationType,
};

fn sample_cpu() -> CPUInfo {
    CPUInfo {
        vendor: CPUVendor::Intel,
        model_name: "Example 9000".to_string(),
        brand: "Example 9000 @ 3.2GHz".to_string(),
        physical_cores: 8,
        logical_cores: 16,
        base_frequency: 3200,
        max_frequency: 4800,
        l1_cache_kb: 512,
        l2_cache_kb: 4096,
        l3_cache_kb: 16384,
        features: Vec::new(),
        architecture: "x86_64".to_string(),
        core_usage: Vec::new(),
        temperature_centi: None,
        power_centiw: None,
    }
}

fn sample_memory() -> MemoryInfo {
    MemoryInfo {
        total_mb: 32768,
        available_mb: 20000,
        used_mb: 12768,
        memory_type: MemoryType::DDR4,
        speed_mhz: 3200,
        channels: 2,
        ecc_support: false,
        modules: Vec::new(),
        swap_total_mb: 8192,
        swap_used_mb: 0,
    }
}

fn sample_virtualization() -> VirtualizationInfo {
    VirtualizationInfo {
        environment_type: VirtualizationType::Native,
        hypervisor: None,
        container_runtime: None,
        resource_limits: ResourceLimits {
            cpu_limits: CPULimits {
                max_cores: None,
                quota_percent: None,
                shares: None,
                affinity_mask: None,
                disabled_features: Vec::new(),
            },
            memory_limits: MemoryLimits {
                max_memory_bytes: None,
                max_swap_bytes: None,
                reservation_bytes: None,
                oom_kill_disabled: false,
                numa_policy: None,
            },
            io_limits: IOLimits {
                max_read_iops: None,
                max_write_iops: None,
                max_read_bps: None,
                max_write_bps: None,
                device_weights: Vec::new(),
            },
            network_limits: NetworkLimits {
                max_bandwidth_bps: None,
                network_namespace: false,
                port_restrictions: Vec::new(),
                network_policies: Vec::new(),
            },
            gpu_limits: GPULimits {
                gpu_access: true,
                accessible_devices: Vec::new(),
                memory_limits: Vec::new(),
                capability_restrictions: Vec::new(),
            },
        },
        gpu_passthrough: GPUPassthroughInfo {
            available: false,
            passthrough_type: GPUPassthroughType::NoAccess,
            devices: Vec::new(),
            performance_overhead_percent: 0,
        },
        performance_percent: 100,
        nested_virtualization: false,
        security_features: Vec::new(),
        platform_specific: Vec::new(),
    }
}

fn sensor(name: &str, temp_centi: i32) -> ThermalSensor {
    ThermalSensor {
        name: name.to_string(),
        temperature_centi: temp_centi,
        critical_temperature_centi: None,
        max_temperature_centi: None,
        sensor_type: "CPU".to_string(),
        temperature_history: Vec::new(),
    }
}

fn sample_thermal(temp_centi: i32) -> ThermalInfo {
    ThermalInfo {
        sensors: vec![sensor("cpu0", temp_centi)],
        fans: Vec::new(),
        thermal_status: ThermalStatus::Normal,
        ambient_temperature_centi: None,
        tdp_info: None,
    }
}

fn sample_power(draw_centiw: Option<u64>) -> PowerProfile {
    PowerProfile {
        total_power_draw_centiw: draw_centiw,
        cpu_power_centiw: None,
        gpu_power_centiw: None,
        efficiency_percent: 80,
        thermal_throttling_risk: ThrottlingRisk::NoRisk,
        power_state: PowerState::Balanced,
        available_power_modes: Vec::new(),
    }
}

fn sample_hardware() -> HardwareInfo {
    HardwareInfo {
        cpu: sample_cpu(),
        gpus: Vec::new(),
        npus: Vec::new(),
        tpus: Vec::new(),
        fpgas: Vec::new(),
        memory: sample_memory(),
        storage_devices: Vec::new(),
        network_interfaces: Vec::new(),
        battery: None,
        thermal: sample_thermal(5000),
        pci_devices: Vec::new(),
        usb_devices: Vec::new(),
        virtualization: sample_virtualization(),
        power_profile: None,
    }
}

fn test_config(thermal_threshold_centi: i32, power_threshold_centiw: Option<u64>) -> MonitoringConfig {
    MonitoringConfig {
        update_interval_ms: 100,
        enable_thermal: true,
        enable_power: true,
        enable_hardware: true,
        thermal_threshold_centi,
        power_threshold_centiw,
        background_monitoring: true,
    }
}

#[test]
fn stop_is_idempotent() {
    let mut monitor = HardwareMonitor::new(0);
    monitor.stop_monitoring();
    assert!(!monitor.is_monitoring());
    monitor.stop_monitoring();
    assert!(!monitor.is_monitoring());

    monitor.start_monitoring().unwrap();
    assert!(monitor.is_monitoring());
    monitor.stop_monitoring();
    assert!(!monitor.is_monitoring());
    monitor.stop_monitoring();
    assert!(!monitor.is_monitoring());
}

#[test]
fn double_start_is_rejected() {
    let mut monitor = HardwareMonitor::with_config(test_config(8000, None), 0);
    assert!(monitor.start_monitoring().is_ok());
    let stats_before = monitor.get_stats(10);
    let second = monitor.start_monitoring();
    match second {
        Err(HardwareQueryError::InvalidConfiguration(msg)) => {
            assert_eq!(msg, "Monitoring is already running");
        }
        other => panic!("expected a configuration error, got {:?}", other.is_ok()),
    }
    // the refused start changed nothing
    assert!(monitor.is_monitoring());
    let stats_after = monitor.get_stats(10);
    assert_eq!(stats_before.total_events, stats_after.total_events);
    assert_eq!(stats_before.last_update_ms, stats_after.last_update_ms);
}

#[test]
fn every_tick_emits_one_metrics_update() {
    let mut monitor = HardwareMonitor::with_config(test_config(9000, Some(100_000)), 0);
    monitor.start_monitoring().unwrap();
    let mut rx = monitor.subscribe();
    let ticks: u64 = 5;
    for k in 0..ticks {
        monitor.tick(
            1000 + k,
            10,
            Some(Ok(sample_hardware())),
            Some(Ok(sample_thermal(9500))),
            Some(Ok(sample_power(Some(2000)))),
        );
    }
    let mut metrics_updates = 0;
    let mut thermal_alerts = 0;
    loop {
        match monitor.recv_event(&mut rx) {
            Received::Event(e) => match e {
                MonitoringEvent::MetricsUpdate { .. } => metrics_updates += 1,
                MonitoringEvent::ThermalAlert { .. } => thermal_alerts += 1,
                _ => {}
            },
            Received::Lagged(_) => panic!("receiver lagged"),
            Received::Empty => break,
        }
    }
    // exactly one metrics update per tick, although alerts also fired
    assert_eq!(metrics_updates, ticks);
    assert_eq!(thermal_alerts, ticks);
    let stats = monitor.get_stats(2000);
    assert_eq!(stats.total_events, 2 * ticks);
    assert_eq!(stats.thermal_alerts, ticks);
}

#[test]
fn threshold_crossing_produces_alert() {
    let mut monitor = HardwareMonitor::with_config(test_config(7000, None), 0);
    monitor.start_monitoring().unwrap();
    let mut rx = monitor.subscribe();

    // a sensor at 75.0 degrees against a 70.0 threshold: one alert
    monitor.tick(1, 1, Some(Ok(sample_hardware())), Some(Ok(sample_thermal(7500))), Some(Ok(sample_power(None))));
    match monitor.recv_event(&mut rx) {
        Received::Event(MonitoringEvent::ThermalAlert {
            sensor_name,
            temperature_centi,
            threshold_centi,
            ..
        }) => {
            assert_eq!(sensor_name.as_str(), "cpu0");
            assert_eq!(*temperature_centi, 7500);
            assert_eq!(*threshold_centi, 7000);
        }
        _ => panic!("expected a thermal alert first"),
    }
    match monitor.recv_event(&mut rx) {
        Received::Event(MonitoringEvent::MetricsUpdate { .. }) => {}
        _ => panic!("expected the metrics update"),
    }

    // the same provider at 65.0 degrees: no alert that tick
    monitor.tick(2, 1, Some(Ok(sample_hardware())), Some(Ok(sample_thermal(6500))), Some(Ok(sample_power(None))));
    match monitor.recv_event(&mut rx) {
        Received::Event(MonitoringEvent::MetricsUpdate { .. }) => {}
        _ => panic!("expected only the metrics update"),
    }
    assert!(matches!(monitor.recv_event(&mut rx), Received::Empty));
}

#[test]
fn power_threshold_produces_alert() {
    let mut monitor = HardwareMonitor::with_config(test_config(9000, Some(20_000)), 0);
    monitor.start_monitoring().unwrap();
    let mut rx = monitor.subscribe();
    monitor.tick(1, 1, Some(Ok(sample_hardware())), Some(Ok(sample_thermal(5000))), Some(Ok(sample_power(Some(25_000)))));
    match monitor.recv_event(&mut rx) {
        Received::Event(MonitoringEvent::PowerAlert { current_power_centiw, threshold_centiw, .. }) => {
            assert_eq!(*current_power_centiw, 25_000);
            assert_eq!(*threshold_centiw, 20_000);
        }
        _ => panic!("expected a power alert first"),
    }
    let stats = monitor.get_stats(2);
    assert_eq!(stats.power_alerts, 1);
}

#[test]
fn provider_failure_degrades_gracefully() {
    let mut monitor = HardwareMonitor::with_config(test_config(9000, None), 0);
    monitor.start_monitoring().unwrap();
    let mut rx = monitor.subscribe();

    // a healthy tick caches the thermal snapshot
    monitor.tick(1, 1, Some(Ok(sample_hardware())), Some(Ok(sample_thermal(4200))), Some(Ok(sample_power(None))));
    assert_eq!(monitor.get_last_thermal_info().unwrap().sensors[0].temperature_centi, 4200);

    // the thermal provider fails once: exactly one error event this tick
    monitor.tick(2, 1, Some(Ok(sample_hardware())), Some(Err("sensor bus timeout".to_string())), Some(Ok(sample_power(None))));
    let mut errors_this_tick = 0;
    let mut metrics_this_tick = 0;
    loop {
        match monitor.recv_event(&mut rx) {
            Received::Event(MonitoringEvent::MonitoringError { error, .. }) => {
                errors_this_tick += 1;
                assert_eq!(error.as_str(), "Failed to query thermal info: sensor bus timeout");
            }
            Received::Event(MonitoringEvent::MetricsUpdate { thermal_info, .. }) => {
                metrics_this_tick += 1;
                if metrics_this_tick == 2 {
                    assert!(thermal_info.is_none());
                }
            }
            Received::Event(_) => {}
            Received::Lagged(_) => panic!("receiver lagged"),
            Received::Empty => break,
        }
    }
    assert_eq!(errors_this_tick, 1);
    assert_eq!(metrics_this_tick, 2);
    // the loop did not stop and the cache kept the previous value
    assert!(monitor.is_monitoring());
    assert_eq!(monitor.get_last_thermal_info().unwrap().sensors[0].temperature_centi, 4200);
    assert_eq!(monitor.get_stats(3).errors, 1);

    // the next tick resumes normal operation when the provider recovers
    monitor.tick(3, 1, Some(Ok(sample_hardware())), Some(Ok(sample_thermal(4300))), Some(Ok(sample_power(None))));
    assert_eq!(monitor.get_last_thermal_info().unwrap().sensors[0].temperature_centi, 4300);
    assert_eq!(monitor.get_stats(4).errors, 1);
}

#[test]
fn rolling_average_reflects_last_hundred_ticks() {
    let mut monitor = HardwareMonitor::with_config(test_config(9000, None), 0);
    monitor.start_monitoring().unwrap();
    // 50 slow ticks, then 100 fast ones: only the recent 100 count
    for k in 0..50u64 {
        monitor.tick(k, 1000, Some(Ok(sample_hardware())), Some(Ok(sample_thermal(4000))), Some(Ok(sample_power(None))));
    }
    for k in 50..150u64 {
        monitor.tick(k, 100, Some(Ok(sample_hardware())), Some(Ok(sample_thermal(4000))), Some(Ok(sample_power(None))));
    }
    let stats = monitor.get_stats(1000);
    assert_eq!(stats.average_update_interval_ms, 100);
}

#[test]
fn disabled_categories_are_skipped() {
    let config = MonitoringConfig {
        update_interval_ms: 100,
        enable_thermal: false,
        enable_power: false,
        enable_hardware: true,
        thermal_threshold_centi: 0,
        power_threshold_centiw: None,
        background_monitoring: false,
    };
    let mut monitor = HardwareMonitor::with_config(config, 0);
    monitor.start_monitoring().unwrap();
    let mut rx = monitor.subscribe();
    monitor.tick(1, 1, Some(Ok(sample_hardware())), None, None);
    match monitor.recv_event(&mut rx) {
        Received::Event(MonitoringEvent::MetricsUpdate {
            hardware_info,
            thermal_info,
            power_profile,
            ..
        }) => {
            assert!(hardware_info.is_some());
            assert!(thermal_info.is_none());
            assert!(power_profile.is_none());
        }
        _ => panic!("expected one metrics update"),
    }
    assert!(matches!(monitor.recv_event(&mut rx), Received::Empty));
    // failed/disabled categories never touched the caches
    assert!(monitor.get_last_thermal_info().is_none());
    assert!(monitor.get_last_power_profile().is_none());
    assert!(monitor.get_last_hardware_info().is_some());
}

#[test]
fn uptime_is_measured_from_creation() {
    let monitor = HardwareMonitor::new(5000);
    assert_eq!(monitor.get_stats(12_000).uptime_ms, 7000);
    assert_eq!(monitor.get_stats(4000).uptime_ms, 0);
}

#[test]
fn config_update_applies_to_next_tick() {
    let mut monitor = HardwareMonitor::with_config(test_config(9000, None), 0);
    monitor.start_monitoring().unwrap();
    let mut rx = monitor.subscribe();
    monitor.tick(1, 1, Some(Ok(sample_hardware())), Some(Ok(sample_thermal(7500))), Some(Ok(sample_power(None))));
    // no alert at a 90-degree threshold
    match monitor.recv_event(&mut rx) {
        Received::Event(MonitoringEvent::MetricsUpdate { .. }) => {}
        _ => panic!("expected no alert yet"),
    }
    monitor.update_config(test_config(7000, None));
    monitor.tick(2, 1, Some(Ok(sample_hardware())), Some(Ok(sample_thermal(7500))), Some(Ok(sample_power(None))));
    match monitor.recv_event(&mut rx) {
        Received::Event(MonitoringEvent::ThermalAlert { .. }) => {}
        _ => panic!("expected an alert under the new threshold"),
    }
}

#[test]
fn late_subscriber_sees_only_later_events() {
    let mut monitor = HardwareMonitor::with_config(test_config(9000, None), 0);
    monitor.start_monitoring().unwrap();
    monitor.tick(1, 1, Some(Ok(sample_hardware())), Some(Ok(sample_thermal(4000))), Some(Ok(sample_power(None))));
    let mut rx = monitor.subscribe();
    assert!(matches!(monitor.recv_event(&mut rx), Received::Empty));
    monitor.tick(2, 1, Some(Ok(sample_hardware())), Some(Ok(sample_thermal(4000))), Some(Ok(sample_power(None))));
    match monitor.recv_event(&mut rx) {
        Received::Event(MonitoringEvent::MetricsUpdate { timestamp_ms, .. }) => {
            assert_eq!(*timestamp_ms, 2);
        }
        _ => panic!("expected the second tick's update"),
    }
}
