//! Raw Linux readings: GPU listings and memory tables.

use vstd::prelude::*;

verus! {

/// One GPU as listed by the Linux PCI tables.
#[derive(Debug)]
pub struct LinuxGPUInfo {
    /// Device name
    pub device_name: String,
    /// Vendor name
    pub vendor_name: String,
    /// Kernel driver in use
    pub driver: String,
    /// PCI identifier
    pub pci_id: String,
    /// Raw memory description (if listed)
    pub memory_info: Option<String>,
    /// Driver version (if listed)
    pub driver_version: Option<String>,
}

/// Memory totals as reported by the kernel.
#[derive(Debug)]
pub struct LinuxMemoryInfo {
    /// Total memory in KB
    pub mem_total_kb: u64,
    /// Free memory in KB
    pub mem_free_kb: u64,
    /// Available memory in KB
    pub mem_available_kb: u64,
    /// Buffer memory in KB
    pub buffers_kb: u64,
    /// Cache memory in KB
    pub cached_kb: u64,
    /// Total swap in KB
    pub swap_total_kb: u64,
    /// Free swap in KB
    pub swap_free_kb: u64,
    /// Physical modules
    pub modules: Vec<LinuxMemoryModule>,
}

/// One physical memory module as reported by the firmware tables.
#[derive(Debug)]
pub struct LinuxMemoryModule {
    /// Module size in MB
    pub size_mb: u64,
    /// Module speed in MHz (if reported)
    pub speed_mhz: Option<u32>,
    /// Memory type text
    pub memory_type: String,
    /// Slot locator text
    pub locator: String,
}

impl LinuxMemoryInfo {
    /// Memory in use: total less available, zero when the report is
    /// inconsistent.
    pub fn used_kb(&self) -> (r: u64)
        ensures
            r == if self.mem_total_kb >= self.mem_available_kb {
                self.mem_total_kb - self.mem_available_kb
            } else {
                0int
            },
    {
        if self.mem_total_kb >= self.mem_available_kb {
            self.mem_total_kb - self.mem_available_kb
        } else {
            0
        }
    }
}

} // verus!
