//! Raw macOS readings: CPU, GPU and memory tables.

use vstd::prelude::*;

verus! {

/// CPU description as reported by the macOS system tables.
#[derive(Debug)]
pub struct MacOSCPUInfo {
    /// CPU brand string
    pub brand_string: String,
    /// Vendor text
    pub vendor: String,
    /// CPU type code text
    pub cpu_type: String,
    /// CPU subtype code text
    pub cpu_subtype: String,
    /// Physical core count
    pub physical_cpu: u32,
    /// Logical core count
    pub logical_cpu: u32,
    /// Nominal frequency in Hz
    pub cpu_freq: u64,
    /// Maximum frequency in Hz
    pub cpu_freq_max: u64,
    /// Minimum frequency in Hz
    pub cpu_freq_min: u64,
    /// L1 instruction cache size in bytes
    pub l1_icache_size: u64,
    /// L1 data cache size in bytes
    pub l1_dcache_size: u64,
    /// L2 cache size in bytes
    pub l2_cache_size: u64,
    /// L3 cache size in bytes
    pub l3_cache_size: u64,
    /// Cache line size in bytes
    pub cache_line_size: u64,
    /// Reported feature names
    pub features: Vec<String>,
}

/// One GPU as reported by the macOS system profiler.
#[derive(Debug)]
pub struct MacOSGPUInfo {
    /// Device name
    pub device_name: String,
    /// Vendor name
    pub vendor_name: String,
    /// Device identifier
    pub device_id: String,
    /// Vendor identifier
    pub vendor_id: String,
    /// PCI class text
    pub pci_class: String,
    /// Metal supported
    pub metal_support: bool,
    /// Memory in MB
    pub memory_mb: u64,
}

/// Memory totals as reported by macOS.
#[derive(Debug)]
pub struct MacOSMemoryInfo {
    /// Physical memory in bytes
    pub physical_memory: u64,
    /// User memory in bytes
    pub user_memory: u64,
    /// Wired memory in bytes
    pub wired_memory: u64,
    /// Compressed memory in bytes
    pub compressed_memory: u64,
    /// Memory pressure text
    pub memory_pressure: String,
    /// Swap usage in bytes
    pub swap_usage: u64,
}

/// One physical memory module as reported by the macOS system profiler.
#[derive(Debug)]
pub struct MacOSMemoryModule {
    /// Module size in GB
    pub size_gb: u64,
    /// Module speed in MHz
    pub speed_mhz: u32,
    /// Memory type text
    pub memory_type: String,
    /// Manufacturer text
    pub manufacturer: String,
    /// Part number text
    pub part_number: String,
    /// Serial number text
    pub serial_number: String,
    /// Slot text
    pub slot: String,
}

/// macOS system version and build details.
#[derive(Debug)]
pub struct MacOSSystemInfo {
    /// Product name text
    pub product_name: String,
    /// Product version text
    pub product_version: String,
    /// Build version text
    pub build_version: String,
}

} // verus!
