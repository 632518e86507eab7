//! GPU description: vendor, classification, memory, and compute capabilities.

use vstd::prelude::*;
use vstd::string::StringExecFns;

verus! {

/// GPU vendor
#[derive(Debug, PartialEq, Eq)]
pub enum GPUVendor {
    NVIDIA,
    AMD,
    Intel,
    Apple,
    ARM,
    Qualcomm,
    Unknown(String),
}

impl Clone for GPUVendor {
    fn clone(&self) -> (r: Self)
        ensures
            r == *self,
    {
        match self {
            GPUVendor::NVIDIA => GPUVendor::NVIDIA,
            GPUVendor::AMD => GPUVendor::AMD,
            GPUVendor::Intel => GPUVendor::Intel,
            GPUVendor::Apple => GPUVendor::Apple,
            GPUVendor::ARM => GPUVendor::ARM,
            GPUVendor::Qualcomm => GPUVendor::Qualcomm,
            GPUVendor::Unknown(name) => GPUVendor::Unknown(name.clone()),
        }
    }
}

impl GPUVendor {
    /// The text this vendor renders as.
    pub open spec fn spec_label(&self) -> Seq<char> {
        match self {
            GPUVendor::NVIDIA => "NVIDIA"@,
            GPUVendor::AMD => "AMD"@,
            GPUVendor::Intel => "Intel"@,
            GPUVendor::Apple => "Apple"@,
            GPUVendor::ARM => "ARM"@,
            GPUVendor::Qualcomm => "Qualcomm"@,
            GPUVendor::Unknown(name) => name@,
        }
    }

    /// Render the vendor as text.
    pub fn label(&self) -> (r: String)
        ensures
            r@ == self.spec_label(),
    {
        match self {
            GPUVendor::NVIDIA => String::from_str("NVIDIA"),
            GPUVendor::AMD => String::from_str("AMD"),
            GPUVendor::Intel => String::from_str("Intel"),
            GPUVendor::Apple => String::from_str("Apple"),
            GPUVendor::ARM => String::from_str("ARM"),
            GPUVendor::Qualcomm => String::from_str("Qualcomm"),
            GPUVendor::Unknown(name) => name.clone(),
        }
    }
}

/// GPU type classification
#[derive(Debug, Clone, Copy, PartialEq, Eq, Structural)]
pub enum GPUType {
    /// Consumer discrete GPU
    Discrete,
    /// Integrated GPU
    Integrated,
    /// Workstation GPU
    Workstation,
    /// Datacenter GPU
    Datacenter,
    /// Virtual GPU
    Virtual,
    /// Unknown type
    Unknown,
}

impl GPUType {
    /// The text this type renders as.
    pub open spec fn spec_label(&self) -> Seq<char> {
        match self {
            GPUType::Discrete => "Discrete"@,
            GPUType::Integrated => "Integrated"@,
            GPUType::Workstation => "Workstation"@,
            GPUType::Datacenter => "Datacenter"@,
            GPUType::Virtual => "Virtual"@,
            GPUType::Unknown => "Unknown"@,
        }
    }

    /// Render the type as text.
    pub fn label(&self) -> (r: String)
        ensures
            r@ == self.spec_label(),
    {
        match self {
            GPUType::Discrete => String::from_str("Discrete"),
            GPUType::Integrated => String::from_str("Integrated"),
            GPUType::Workstation => String::from_str("Workstation"),
            GPUType::Datacenter => String::from_str("Datacenter"),
            GPUType::Virtual => String::from_str("Virtual"),
            GPUType::Unknown => String::from_str("Unknown"),
        }
    }
}

/// GPU compute capabilities
#[derive(Debug)]
pub struct ComputeCapabilities {
    /// CUDA support and compute capability
    pub cuda: Option<String>,
    /// ROCm support
    pub rocm: bool,
    /// DirectML support (Windows)
    pub directml: bool,
    /// OpenCL support
    pub opencl: bool,
    /// Vulkan support
    pub vulkan: bool,
    /// Metal support (macOS)
    pub metal: bool,
    /// Maximum compute units/cores
    pub compute_units: Option<u32>,
    /// Maximum workgroup size
    pub max_workgroup_size: Option<u32>,
}

impl Clone for ComputeCapabilities {
    fn clone(&self) -> (r: Self)
        ensures
            r == *self,
    {
        ComputeCapabilities {
            cuda: self.cuda.clone(),
            rocm: self.rocm,
            directml: self.directml,
            opencl: self.opencl,
            vulkan: self.vulkan,
            metal: self.metal,
            compute_units: self.compute_units,
            max_workgroup_size: self.max_workgroup_size,
        }
    }
}

/// GPU information and specifications.
#[derive(Debug)]
pub struct GPUInfo {
    /// GPU vendor
    pub vendor: GPUVendor,
    /// GPU model name
    pub model_name: String,
    /// GPU type (discrete, integrated, etc.)
    pub gpu_type: GPUType,
    /// GPU memory in MB
    pub memory_mb: u64,
    /// GPU memory type (GDDR6, HBM2, etc.)
    pub memory_type: Option<String>,
    /// GPU memory bandwidth in megabytes per second
    pub memory_bandwidth_mbps: Option<u64>,
    /// GPU base clock in MHz
    pub base_clock: Option<u32>,
    /// GPU boost clock in MHz
    pub boost_clock: Option<u32>,
    /// GPU memory clock in MHz
    pub memory_clock: Option<u32>,
    /// Number of shader units/cores
    pub shader_units: Option<u32>,
    /// Number of RT cores
    pub rt_cores: Option<u32>,
    /// Number of tensor cores
    pub tensor_cores: Option<u32>,
    /// Compute capabilities
    pub compute_capabilities: ComputeCapabilities,
    /// Current GPU usage in whole percent
    pub usage_percent: Option<u32>,
    /// Current GPU temperature in hundredths of a degree Celsius
    pub temperature_centi: Option<i32>,
    /// Current power consumption in centiwatts
    pub power_centiw: Option<u64>,
    /// Maximum power limit in centiwatts
    pub power_limit_centiw: Option<u64>,
    /// Driver version
    pub driver_version: Option<String>,
    /// VBIOS version
    pub vbios_version: Option<String>,
    /// PCI device ID
    pub pci_device_id: Option<String>,
    /// PCI subsystem ID
    pub pci_subsystem_id: Option<String>,
}

/// Field-by-field equality of two GPU descriptions, over views.
pub open spec fn gpu_eq(a: &GPUInfo, b: &GPUInfo) -> bool {
    &&& a.vendor == b.vendor
    &&& a.model_name@ == b.model_name@
    &&& a.gpu_type == b.gpu_type
    &&& a.memory_mb == b.memory_mb
    &&& a.memory_type == b.memory_type
    &&& a.memory_bandwidth_mbps == b.memory_bandwidth_mbps
    &&& a.base_clock == b.base_clock
    &&& a.boost_clock == b.boost_clock
    &&& a.memory_clock == b.memory_clock
    &&& a.shader_units == b.shader_units
    &&& a.rt_cores == b.rt_cores
    &&& a.tensor_cores == b.tensor_cores
    &&& a.compute_capabilities == b.compute_capabilities
    &&& a.usage_percent == b.usage_percent
    &&& a.temperature_centi == b.temperature_centi
    &&& a.power_centiw == b.power_centiw
    &&& a.power_limit_centiw == b.power_limit_centiw
    &&& a.driver_version == b.driver_version
    &&& a.vbios_version == b.vbios_version
    &&& a.pci_device_id == b.pci_device_id
    &&& a.pci_subsystem_id == b.pci_subsystem_id
}

impl Clone for GPUInfo {
    fn clone(&self) -> (r: Self)
        ensures
            gpu_eq(&r, self),
    {
        GPUInfo {
            vendor: self.vendor.clone(),
            model_name: self.model_name.clone(),
            gpu_type: self.gpu_type,
            memory_mb: self.memory_mb,
            memory_type: self.memory_type.clone(),
            memory_bandwidth_mbps: self.memory_bandwidth_mbps,
            base_clock: self.base_clock,
            boost_clock: self.boost_clock,
            memory_clock: self.memory_clock,
            shader_units: self.shader_units,
            rt_cores: self.rt_cores,
            tensor_cores: self.tensor_cores,
            compute_capabilities: self.compute_capabilities.clone(),
            usage_percent: self.usage_percent,
            temperature_centi: self.temperature_centi,
            power_centiw: self.power_centiw,
            power_limit_centiw: self.power_limit_centiw,
            driver_version: self.driver_version.clone(),
            vbios_version: self.vbios_version.clone(),
            pci_device_id: self.pci_device_id.clone(),
            pci_subsystem_id: self.pci_subsystem_id.clone(),
        }
    }
}

impl GPUInfo {
    /// Get GPU vendor.
    pub fn vendor(&self) -> (r: &GPUVendor)
        ensures
            r == &self.vendor,
    {
        &self.vendor
    }

    /// Get GPU model name.
    pub fn model_name(&self) -> (r: &str)
        ensures
            r@ == self.model_name@,
    {
        self.model_name.as_str()
    }

    /// Get GPU type.
    pub fn gpu_type(&self) -> (r: &GPUType)
        ensures
            r == &self.gpu_type,
    {
        &self.gpu_type
    }

    /// Get GPU memory in MB.
    pub fn memory_mb(&self) -> (r: u64)
        ensures
            r == self.memory_mb,
    {
        self.memory_mb
    }

    /// Check CUDA support.
    pub fn supports_cuda(&self) -> (r: bool)
        ensures
            r == self.compute_capabilities.cuda.is_some(),
    {
        self.compute_capabilities.cuda.is_some()
    }

    /// Get CUDA compute capability (if supported).
    pub fn cuda_capability(&self) -> (r: Option<&String>)
        ensures
            r is Some <==> self.compute_capabilities.cuda is Some,
            r is Some ==> self.compute_capabilities.cuda->0 == r->0,
    {
        self.compute_capabilities.cuda.as_ref()
    }

    /// Check ROCm support.
    pub fn supports_rocm(&self) -> (r: bool)
        ensures
            r == self.compute_capabilities.rocm,
    {
        self.compute_capabilities.rocm
    }

    /// Check DirectML support.
    pub fn supports_directml(&self) -> (r: bool)
        ensures
            r == self.compute_capabilities.directml,
    {
        self.compute_capabilities.directml
    }

    /// Check OpenCL support.
    pub fn supports_opencl(&self) -> (r: bool)
        ensures
            r == self.compute_capabilities.opencl,
    {
        self.compute_capabilities.opencl
    }

    /// Check Vulkan support.
    pub fn supports_vulkan(&self) -> (r: bool)
        ensures
            r == self.compute_capabilities.vulkan,
    {
        self.compute_capabilities.vulkan
    }

    /// Check Metal support.
    pub fn supports_metal(&self) -> (r: bool)
        ensures
            r == self.compute_capabilities.metal,
    {
        self.compute_capabilities.metal
    }
}

} // verus!
