//! System memory description: capacity, modules, and type.

use vstd::prelude::*;
use vstd::string::StringExecFns;

verus! {

/// Memory type
#[derive(Debug, PartialEq, Eq)]
pub enum MemoryType {
    DDR3,
    DDR4,
    DDR5,
    LPDDR3,
    LPDDR4,
    LPDDR5,
    Unknown(String),
}

impl Clone for MemoryType {
    fn clone(&self) -> (r: Self)
        ensures
            r == *self,
    {
        match self {
            MemoryType::DDR3 => MemoryType::DDR3,
            MemoryType::DDR4 => MemoryType::DDR4,
            MemoryType::DDR5 => MemoryType::DDR5,
            MemoryType::LPDDR3 => MemoryType::LPDDR3,
            MemoryType::LPDDR4 => MemoryType::LPDDR4,
            MemoryType::LPDDR5 => MemoryType::LPDDR5,
            MemoryType::Unknown(name) => MemoryType::Unknown(name.clone()),
        }
    }
}

impl MemoryType {
    /// The text this memory type renders as.
    pub open spec fn spec_label(&self) -> Seq<char> {
        match self {
            MemoryType::DDR3 => "DDR3"@,
            MemoryType::DDR4 => "DDR4"@,
            MemoryType::DDR5 => "DDR5"@,
            MemoryType::LPDDR3 => "LPDDR3"@,
            MemoryType::LPDDR4 => "LPDDR4"@,
            MemoryType::LPDDR5 => "LPDDR5"@,
            MemoryType::Unknown(name) => name@,
        }
    }

    /// Render the memory type as text.
    pub fn label(&self) -> (r: String)
        ensures
            r@ == self.spec_label(),
    {
        match self {
            MemoryType::DDR3 => String::from_str("DDR3"),
            MemoryType::DDR4 => String::from_str("DDR4"),
            MemoryType::DDR5 => String::from_str("DDR5"),
            MemoryType::LPDDR3 => String::from_str("LPDDR3"),
            MemoryType::LPDDR4 => String::from_str("LPDDR4"),
            MemoryType::LPDDR5 => String::from_str("LPDDR5"),
            MemoryType::Unknown(name) => name.clone(),
        }
    }
}

/// One physical memory module.
#[derive(Debug)]
pub struct MemoryModule {
    /// Module capacity in MB
    pub capacity_mb: u64,
    /// Module speed in MHz
    pub speed_mhz: Option<u32>,
    /// Module manufacturer
    pub manufacturer: Option<String>,
    /// Module part number
    pub part_number: Option<String>,
    /// Slot location
    pub slot: Option<String>,
}

impl Clone for MemoryModule {
    fn clone(&self) -> (r: Self)
        ensures
            r == *self,
    {
        MemoryModule {
            capacity_mb: self.capacity_mb,
            speed_mhz: self.speed_mhz,
            manufacturer: self.manufacturer.clone(),
            part_number: self.part_number.clone(),
            slot: self.slot.clone(),
        }
    }
}

/// System memory information.
#[derive(Debug)]
pub struct MemoryInfo {
    /// Total memory in MB
    pub total_mb: u64,
    /// Available memory in MB
    pub available_mb: u64,
    /// Used memory in MB
    pub used_mb: u64,
    /// Memory type
    pub memory_type: MemoryType,
    /// Memory speed in MHz
    pub speed_mhz: u32,
    /// Number of memory channels
    pub channels: u32,
    /// ECC support
    pub ecc_support: bool,
    /// Physical memory modules
    pub modules: Vec<MemoryModule>,
    /// Total swap in MB
    pub swap_total_mb: u64,
    /// Used swap in MB
    pub swap_used_mb: u64,
}

/// Field-by-field equality of two memory descriptions, over views.
pub open spec fn memory_eq(a: &MemoryInfo, b: &MemoryInfo) -> bool {
    &&& a.total_mb == b.total_mb
    &&& a.available_mb == b.available_mb
    &&& a.used_mb == b.used_mb
    &&& a.memory_type == b.memory_type
    &&& a.speed_mhz == b.speed_mhz
    &&& a.channels == b.channels
    &&& a.ecc_support == b.ecc_support
    &&& a.modules@ == b.modules@
    &&& a.swap_total_mb == b.swap_total_mb
    &&& a.swap_used_mb == b.swap_used_mb
}

impl Clone for MemoryInfo {
    fn clone(&self) -> (r: Self)
        ensures
            memory_eq(&r, self),
    {
        let r = MemoryInfo {
            total_mb: self.total_mb,
            available_mb: self.available_mb,
            used_mb: self.used_mb,
            memory_type: self.memory_type.clone(),
            speed_mhz: self.speed_mhz,
            channels: self.channels,
            ecc_support: self.ecc_support,
            modules: self.modules.clone(),
            swap_total_mb: self.swap_total_mb,
            swap_used_mb: self.swap_used_mb,
        };
        proof {
            assert(r.modules@ =~= self.modules@);
        }
        r
    }
}

impl MemoryInfo {
    /// Get total memory in MB.
    pub fn total_mb(&self) -> (r: u64)
        ensures
            r == self.total_mb,
    {
        self.total_mb
    }

    /// Get available memory in MB.
    pub fn available_mb(&self) -> (r: u64)
        ensures
            r == self.available_mb,
    {
        self.available_mb
    }

    /// Get used memory in MB.
    pub fn used_mb(&self) -> (r: u64)
        ensures
            r == self.used_mb,
    {
        self.used_mb
    }

    /// Memory usage in whole percent of total: zero when total is zero,
    /// capped at `u64::MAX` for inconsistent inputs.
    pub fn usage_percent(&self) -> (r: u64)
        ensures
            self.total_mb == 0 ==> r == 0,
            self.total_mb > 0 ==> r == vstd::math::min(
                self.used_mb as int * 100 / self.total_mb as int,
                u64::MAX as int,
            ),
    {
        if self.total_mb == 0 {
            0
        } else {
            let wide: u128 = (self.used_mb as u128) * 100 / (self.total_mb as u128);
            if wide > u64::MAX as u128 {
                u64::MAX
            } else {
                wide as u64
            }
        }
    }

    /// Get the physical memory modules.
    pub fn modules(&self) -> (r: &Vec<MemoryModule>)
        ensures
            r == &self.modules,
    {
        &self.modules
    }

    /// Get the number of memory channels.
    pub fn channels(&self) -> (r: u32)
        ensures
            r == self.channels,
    {
        self.channels
    }

    /// Does the memory support ECC?
    pub fn ecc_support(&self) -> (r: bool)
        ensures
            r == self.ecc_support,
    {
        self.ecc_support
    }

    /// Get memory speed in MHz.
    pub fn speed_mhz(&self) -> (r: u32)
        ensures
            r == self.speed_mhz,
    {
        self.speed_mhz
    }

    /// Is at least `required_mb` of memory available?
    pub fn has_sufficient_memory(&self, required_mb: u64) -> (r: bool)
        ensures
            r == (self.available_mb >= required_mb),
    {
        self.available_mb >= required_mb
    }
}

} // verus!
