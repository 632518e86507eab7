//! FPGA accelerator description.

use vstd::prelude::*;

verus! {

/// FPGA vendor
#[derive(Debug, PartialEq, Eq)]
pub enum FPGAVendor {
    Intel,
    Xilinx,
    Microsemi,
    Lattice,
    /// Legacy, now part of Intel
    Altera,
    Unknown(String),
}

impl Clone for FPGAVendor {
    fn clone(&self) -> (r: Self)
        ensures
            r == *self,
    {
        match self {
            FPGAVendor::Intel => FPGAVendor::Intel,
            FPGAVendor::Xilinx => FPGAVendor::Xilinx,
            FPGAVendor::Microsemi => FPGAVendor::Microsemi,
            FPGAVendor::Lattice => FPGAVendor::Lattice,
            FPGAVendor::Altera => FPGAVendor::Altera,
            FPGAVendor::Unknown(name) => FPGAVendor::Unknown(name.clone()),
        }
    }
}

/// FPGA family/series information
#[derive(Debug, PartialEq, Eq)]
pub enum FPGAFamily {
    IntelArria10,
    IntelStratix10,
    IntelCyclone5,
    IntelAgilex,
    XilinxKintex7,
    XilinxVirtex7,
    XilinxZynq7000,
    XilinxZynqUltraScale,
    XilinxKintexUltraScale,
    XilinxVirtexUltraScale,
    XilinxVersal,
    MicrosemiPolarFire,
    LatticeECP5,
    Unknown(String),
}

impl Clone for FPGAFamily {
    fn clone(&self) -> (r: Self)
        ensures
            r == *self,
    {
        match self {
            FPGAFamily::IntelArria10 => FPGAFamily::IntelArria10,
            FPGAFamily::IntelStratix10 => FPGAFamily::IntelStratix10,
            FPGAFamily::IntelCyclone5 => FPGAFamily::IntelCyclone5,
            FPGAFamily::IntelAgilex => FPGAFamily::IntelAgilex,
            FPGAFamily::XilinxKintex7 => FPGAFamily::XilinxKintex7,
            FPGAFamily::XilinxVirtex7 => FPGAFamily::XilinxVirtex7,
            FPGAFamily::XilinxZynq7000 => FPGAFamily::XilinxZynq7000,
            FPGAFamily::XilinxZynqUltraScale => FPGAFamily::XilinxZynqUltraScale,
            FPGAFamily::XilinxKintexUltraScale => FPGAFamily::XilinxKintexUltraScale,
            FPGAFamily::XilinxVirtexUltraScale => FPGAFamily::XilinxVirtexUltraScale,
            FPGAFamily::XilinxVersal => FPGAFamily::XilinxVersal,
            FPGAFamily::MicrosemiPolarFire => FPGAFamily::MicrosemiPolarFire,
            FPGAFamily::LatticeECP5 => FPGAFamily::LatticeECP5,
            FPGAFamily::Unknown(name) => FPGAFamily::Unknown(name.clone()),
        }
    }
}

/// FPGA interface type
#[derive(Debug, PartialEq, Eq)]
pub enum FPGAInterface {
    PCIe,
    USB,
    Ethernet,
    SPI,
    I2C,
    JTAG,
    Embedded,
    Unknown(String),
}

impl Clone for FPGAInterface {
    fn clone(&self) -> (r: Self)
        ensures
            r == *self,
    {
        match self {
            FPGAInterface::PCIe => FPGAInterface::PCIe,
            FPGAInterface::USB => FPGAInterface::USB,
            FPGAInterface::Ethernet => FPGAInterface::Ethernet,
            FPGAInterface::SPI => FPGAInterface::SPI,
            FPGAInterface::I2C => FPGAInterface::I2C,
            FPGAInterface::JTAG => FPGAInterface::JTAG,
            FPGAInterface::Embedded => FPGAInterface::Embedded,
            FPGAInterface::Unknown(name) => FPGAInterface::Unknown(name.clone()),
        }
    }
}

/// FPGA accelerator information.
#[derive(Debug)]
pub struct FPGAInfo {
    /// FPGA vendor
    pub vendor: FPGAVendor,
    /// FPGA family/series
    pub family: FPGAFamily,
    /// Device model/part number
    pub model: String,
    /// Device ID (PCI, USB, etc.)
    pub device_id: Option<String>,
    /// Interface type
    pub interface: FPGAInterface,
    /// Logic elements/cells count
    pub logic_elements: Option<u64>,
    /// DSP slices/blocks count
    pub dsp_blocks: Option<u32>,
    /// Maximum operating frequency (MHz)
    pub max_frequency_mhz: Option<u32>,
}

/// Field-by-field equality of two FPGA descriptions, over views.
pub open spec fn fpga_eq(a: &FPGAInfo, b: &FPGAInfo) -> bool {
    &&& a.vendor == b.vendor
    &&& a.family == b.family
    &&& a.model@ == b.model@
    &&& a.device_id == b.device_id
    &&& a.interface == b.interface
    &&& a.logic_elements == b.logic_elements
    &&& a.dsp_blocks == b.dsp_blocks
    &&& a.max_frequency_mhz == b.max_frequency_mhz
}

impl Clone for FPGAInfo {
    fn clone(&self) -> (r: Self)
        ensures
            fpga_eq(&r, self),
    {
        FPGAInfo {
            vendor: self.vendor.clone(),
            family: self.family.clone(),
            model: self.model.clone(),
            device_id: self.device_id.clone(),
            interface: self.interface.clone(),
            logic_elements: self.logic_elements,
            dsp_blocks: self.dsp_blocks,
            max_frequency_mhz: self.max_frequency_mhz,
        }
    }
}

} // verus!
