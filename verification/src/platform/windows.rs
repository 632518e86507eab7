//! Raw Windows readings: memory tables and the pure parsing of their
//! type codes.

use vstd::prelude::*;
use vstd::string::StringExecFns;

use crate::strutil;

verus! {

/// Memory totals as reported by the Windows management tables.
#[derive(Debug)]
pub struct WindowsMemoryInfo {
    /// Total physical memory in MB
    pub total_physical_mb: u64,
    /// Available physical memory in MB
    pub available_physical_mb: u64,
    /// Total virtual memory in MB
    pub total_virtual_mb: u64,
    /// Available virtual memory in MB
    pub available_virtual_mb: u64,
    /// Physical modules
    pub modules: Vec<WindowsMemoryModule>,
}

/// One physical memory module as reported by the Windows management
/// tables.
#[derive(Debug)]
pub struct WindowsMemoryModule {
    /// Module capacity in MB
    pub capacity_mb: u64,
    /// Module speed in MHz
    pub speed_mhz: u32,
    /// Memory type text
    pub memory_type: String,
    /// Manufacturer text (if reported)
    pub manufacturer: Option<String>,
    /// Part number text (if reported)
    pub part_number: Option<String>,
    /// Bank label text (if reported)
    pub bank_label: Option<String>,
    /// Device locator text (if reported)
    pub device_locator: Option<String>,
}

/// The text a Windows memory type code renders as: the DDR generations
/// the tables define, or `Unknown (<code>)`.
pub open spec fn spec_memory_type_text(type_code: u64) -> Seq<char> {
    if type_code == 20 {
        "DDR"@
    } else if type_code == 21 {
        "DDR2"@
    } else if type_code == 22 {
        "DDR2 FB-DIMM"@
    } else if type_code == 24 {
        "DDR3"@
    } else if type_code == 26 {
        "DDR4"@
    } else if type_code == 34 {
        "DDR5"@
    } else {
        "Unknown ("@ + strutil::dec_str(type_code as int) + ")"@
    }
}

impl WindowsMemoryInfo {
    /// Parse a memory type code from the Windows management tables into
    /// its text.
    pub fn parse_memory_type(type_code: u64) -> (r: String)
        ensures
            r@ == spec_memory_type_text(type_code),
    {
        if type_code == 20 {
            String::from_str("DDR")
        } else if type_code == 21 {
            String::from_str("DDR2")
        } else if type_code == 22 {
            String::from_str("DDR2 FB-DIMM")
        } else if type_code == 24 {
            String::from_str("DDR3")
        } else if type_code == 26 {
            String::from_str("DDR4")
        } else if type_code == 34 {
            String::from_str("DDR5")
        } else {
            let mut out = String::from_str("Unknown (");
            let digits = strutil::u64_to_string(type_code);
            out.append(digits.as_str());
            out.append(")");
            out
        }
    }
}

} // verus!
