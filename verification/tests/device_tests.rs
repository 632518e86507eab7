//! Device classifiers, text helpers, builder flags, and error rendering.

use hardware_query::builder::HardwareQueryBuilder;
use hardware_query::strutil;
use hardware_query::cpu::{CPUFeature, CPUInfo, CPUVendor};
use hardware_query::error::HardwareQueryError;
use hardware_query::memory::{MemoryInfo, MemoryType};
use hardware_query::network::{NetworkInfo, NetworkType};
use hardware_query::pci::PCIDevice;
use hardware_query::platform::windows::WindowsMemoryInfo;
use hardware_query::storage::StorageType;
use hardware_query::usb::USBDevice;

#[test]
fn network_type_detection() {
    assert_eq!(NetworkInfo::detect_network_type("eth0"), NetworkType::Ethernet);
    assert_eq!(NetworkInfo::detect_network_type("wlan0"), NetworkType::WiFi);
    assert_eq!(NetworkInfo::detect_network_type("Wi-Fi 2"), NetworkType::WiFi);
    assert_eq!(NetworkInfo::detect_network_type("lo"), NetworkType::Loopback);
    assert_eq!(NetworkInfo::detect_network_type("BLUETOOTH"), NetworkType::Bluetooth);
    assert_eq!(NetworkInfo::detect_network_type("cellular1"), NetworkType::Cellular);
    assert_eq!(NetworkInfo::detect_network_type("vpn-tunnel"), NetworkType::VPN);
    assert_eq!(NetworkInfo::detect_network_type("docker0"), NetworkType::Unknown);
    // loopback wins over the later families
    assert_eq!(NetworkInfo::detect_network_type("wlo1"), NetworkType::Loopback);
}

#[test]
fn network_totals_add_both_directions() {
    let n = NetworkInfo {
        name: "eth0".to_string(),
        network_type: NetworkType::Ethernet,
        mac_address: "00:00:00:00:00:00".to_string(),
        ip_addresses: Vec::new(),
        speed_mbps: None,
        is_up: true,
        bytes_received: 100,
        bytes_transmitted: 23,
        packets_received: 7,
        packets_transmitted: 5,
        receive_errors: 1,
        transmit_errors: 2,
    };
    assert_eq!(n.total_bytes(), 123);
    assert_eq!(n.total_packets(), 12);
    assert_eq!(n.total_errors(), 3);
    assert!(n.is_active());
    // counters saturate instead of wrapping
    let mut extreme = n.clone();
    extreme.bytes_received = u64::MAX;
    extreme.bytes_transmitted = 5;
    assert_eq!(extreme.total_bytes(), u64::MAX);
}

fn pci(device_class: &str) -> PCIDevice {
    PCIDevice {
        device_id: "10de:2684".to_string(),
        vendor_name: "Example".to_string(),
        device_name: "Example Device".to_string(),
        bus_location: "0000:01:00.0".to_string(),
        device_class: device_class.to_string(),
        subsystem_id: None,
        driver: None,
        revision: None,
        irq: None,
        memory_regions: Vec::new(),
    }
}

#[test]
fn pci_classifiers() {
    assert!(pci("VGA compatible controller").is_graphics_device());
    assert!(pci("Display controller").is_graphics_device());
    assert!(!pci("Audio device").is_graphics_device());
    assert!(pci("Ethernet controller").is_network_device());
    assert!(pci("Wireless controller").is_network_device());
    assert!(pci("NVMe storage controller").is_storage_device());
    assert!(pci("SATA controller").is_storage_device());
    assert!(!pci("USB controller").is_storage_device());
}

fn usb(device_class: &str, usb_version: &str) -> USBDevice {
    USBDevice {
        vendor_id: "046d".to_string(),
        product_id: "c52b".to_string(),
        vendor_name: "Example".to_string(),
        product_name: "Example Gadget".to_string(),
        device_class: device_class.to_string(),
        usb_version: usb_version.to_string(),
        serial_number: None,
        bus_number: 1,
        device_address: 4,
        port_path: None,
        driver: None,
        connected: true,
    }
}

#[test]
fn usb_classifiers() {
    assert!(usb("Mass Storage", "3.0").is_storage_device());
    assert!(usb("Human Interface Device", "2.0").is_input_device());
    assert!(usb("HID Keyboard", "1.1").is_input_device());
    assert!(usb("Audio", "2.0").is_audio_device());
    assert!(usb("Video Camera", "3.1").is_video_device());
    assert!(!usb("Hub", "2.0").is_storage_device());
}

#[test]
fn usb_high_speed_rule() {
    assert!(usb("Hub", "3.0").is_high_speed());
    assert!(usb("Hub", "3.2 Gen 2").is_high_speed());
    assert!(!usb("Hub", "2.0").is_high_speed());
    assert!(!usb("Hub", "1.1").is_high_speed());
    // a bare "3" counts unless a lower generation is also named
    assert!(usb("Hub", "USB3").is_high_speed());
    assert!(!usb("Hub", "USB3 over 2.0 cable").is_high_speed());
}

#[test]
fn cpu_vendor_parsing_and_features() {
    assert_eq!(CPUVendor::parse_vendor("Intel(R) Core(TM) i7"), CPUVendor::Intel);
    assert_eq!(CPUVendor::parse_vendor("AMD Ryzen 9"), CPUVendor::AMD);
    assert_eq!(CPUVendor::parse_vendor("Apple M3"), CPUVendor::Apple);
    match CPUVendor::parse_vendor("Loongson 3A") {
        CPUVendor::Unknown(name) => assert_eq!(name, "Loongson 3A"),
        other => panic!("expected an unknown vendor, got {:?}", other),
    }

    let cpu = CPUInfo {
        vendor: CPUVendor::Intel,
        model_name: "Example".to_string(),
        brand: "Example".to_string(),
        physical_cores: 4,
        logical_cores: 8,
        base_frequency: 2400,
        max_frequency: 4200,
        l1_cache_kb: 256,
        l2_cache_kb: 1024,
        l3_cache_kb: 8192,
        features: vec![CPUFeature::AVX2, CPUFeature::SSE42, CPUFeature::Unknown("sgx".to_string())],
        architecture: "x86_64".to_string(),
        core_usage: Vec::new(),
        temperature_centi: None,
        power_centiw: None,
    };
    assert!(cpu.has_feature("avx2"));
    assert!(cpu.has_feature("AVX2"));
    assert!(cpu.has_feature("sse4.2"));
    assert!(cpu.has_feature("SGX"));
    assert!(!cpu.has_feature("avx512"));
}

#[test]
fn memory_usage_percent() {
    let mem = MemoryInfo {
        total_mb: 16_384,
        available_mb: 4096,
        used_mb: 12_288,
        memory_type: MemoryType::DDR4,
        speed_mhz: 3200,
        channels: 2,
        ecc_support: false,
        modules: Vec::new(),
        swap_total_mb: 0,
        swap_used_mb: 0,
    };
    assert_eq!(mem.usage_percent(), 75);
    assert!(mem.has_sufficient_memory(4096));
    assert!(!mem.has_sufficient_memory(4097));
    let empty = MemoryInfo { total_mb: 0, used_mb: 0, ..mem };
    assert_eq!(empty.usage_percent(), 0);
}

#[test]
fn storage_type_labels() {
    assert_eq!(StorageType::SSD.label(), "SSD");
    assert_eq!(StorageType::HDD.label(), "HDD");
    assert_eq!(StorageType::NVMe.label(), "NVMe");
    assert_eq!(StorageType::EMmc.label(), "eMMC");
    assert_eq!(StorageType::SD.label(), "SD Card");
    assert!(StorageType::NVMe.is_solid_state());
    assert!(StorageType::SSD.is_solid_state());
    assert!(!StorageType::HDD.is_solid_state());
}

#[test]
fn windows_memory_type_codes() {
    assert_eq!(WindowsMemoryInfo::parse_memory_type(20), "DDR");
    assert_eq!(WindowsMemoryInfo::parse_memory_type(21), "DDR2");
    assert_eq!(WindowsMemoryInfo::parse_memory_type(22), "DDR2 FB-DIMM");
    assert_eq!(WindowsMemoryInfo::parse_memory_type(24), "DDR3");
    assert_eq!(WindowsMemoryInfo::parse_memory_type(26), "DDR4");
    assert_eq!(WindowsMemoryInfo::parse_memory_type(34), "DDR5");
    assert_eq!(WindowsMemoryInfo::parse_memory_type(42), "Unknown (42)");
    assert_eq!(WindowsMemoryInfo::parse_memory_type(0), "Unknown (0)");
    assert_eq!(WindowsMemoryInfo::parse_memory_type(1234567890), "Unknown (1234567890)");
}

#[test]
fn builder_flags_accumulate() {
    let b = HardwareQueryBuilder::new();
    assert!(!b.include_cpu);
    let b = b.with_cpu().with_memory();
    assert!(b.include_cpu && b.include_memory);
    assert!(!b.include_gpu);

    let basic = HardwareQueryBuilder::new().with_basic();
    assert!(basic.include_cpu && basic.include_memory && basic.include_storage);
    assert!(!basic.include_network);

    let ai = HardwareQueryBuilder::new().with_ai_focused();
    assert!(ai.include_cpu && ai.include_gpu && ai.include_memory);
    assert!(ai.include_thermal && ai.include_virtualization && ai.include_power);

    let gaming = HardwareQueryBuilder::new().with_gaming_focused();
    assert!(gaming.include_cpu && gaming.include_gpu && gaming.include_memory);
    assert!(gaming.include_thermal && gaming.include_storage);
    assert!(!gaming.include_pci);

    let server = HardwareQueryBuilder::new().with_server_focused();
    assert!(server.include_network && server.include_pci);

    let all = HardwareQueryBuilder::new().with_all();
    assert!(all.include_cpu && all.include_usb && all.include_battery && all.include_power);

    let filtered = HardwareQueryBuilder::new().with_network().filter_network(|n| n.is_up);
    assert!(filtered.include_network);
}

#[test]
fn error_messages_carry_category_and_detail() {
    assert_eq!(
        HardwareQueryError::system_info_unavailable("no table").message(),
        "System information not available: no table"
    );
    assert_eq!(
        HardwareQueryError::device_not_found("gpu1").message(),
        "Hardware device not found: gpu1"
    );
    assert_eq!(
        HardwareQueryError::platform_not_supported("plan9").message(),
        "Platform not supported: plan9"
    );
    assert_eq!(
        HardwareQueryError::permission_denied("raw port").message(),
        "Permission denied: raw port"
    );
    assert_eq!(HardwareQueryError::IoError("pipe".to_string()).message(), "I/O error: pipe");
    assert_eq!(
        HardwareQueryError::SerializationError("bad field".to_string()).message(),
        "Serialization error: bad field"
    );
    assert_eq!(
        HardwareQueryError::gpu_driver_error("reset").message(),
        "GPU driver error: reset"
    );
    assert_eq!(
        HardwareQueryError::invalid_configuration("interval").message(),
        "Invalid hardware configuration: interval"
    );
    assert_eq!(
        HardwareQueryError::monitoring_error("tick").message(),
        "Monitoring error: tick"
    );
    assert_eq!(
        HardwareQueryError::power_management_error("rail").message(),
        "Power management error: rail"
    );
    assert_eq!(
        HardwareQueryError::virtualization_error("cgroup").message(),
        "Virtualization error: cgroup"
    );
    assert_eq!(
        HardwareQueryError::thermal_error("sensor").message(),
        "Thermal management error: sensor"
    );
    assert_eq!(HardwareQueryError::unknown("???").message(), "Unknown error: ???");
}

#[test]
fn empty_enumerations_for_detached_buses() {
    assert!(PCIDevice::query_all().unwrap().is_empty());
    assert!(USBDevice::query_all().unwrap().is_empty());
}

#[test]
fn text_helpers() {
    assert!(strutil::contains_ignore_case("Hello World", "WORLD"));
    assert!(strutil::contains_ignore_case("abc", ""));
    assert!(!strutil::contains_ignore_case("short", "much longer"));
    assert!(strutil::eq_ignore_case("NVMe", "nvme"));
    assert!(!strutil::eq_ignore_case("NVMe", "nvm"));
    assert!(strutil::eq_str("same", "same"));
    assert!(!strutil::eq_str("same", "Same"));
    assert!(strutil::contains_str("usb 3.0", "3."));
    assert!(!strutil::contains_str("usb 3.0", "4."));
    assert_eq!(strutil::u64_to_string(0), "0");
    assert_eq!(strutil::u64_to_string(907), "907");
    assert_eq!(strutil::u64_to_string(u64::MAX), "18446744073709551615");
}
