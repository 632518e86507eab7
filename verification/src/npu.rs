//! Neural processing unit (NPU) description.

use vstd::prelude::*;

verus! {

/// NPU vendor
#[derive(Debug, PartialEq, Eq)]
pub enum NPUVendor {
    Intel,
    Qualcomm,
    Apple,
    AMD,
    Google,
    MediaTek,
    Samsung,
    Hailo,
    Kneron,
    Unknown(String),
}

impl Clone for NPUVendor {
    fn clone(&self) -> (r: Self)
        ensures
            r == *self,
    {
        match self {
            NPUVendor::Intel => NPUVendor::Intel,
            NPUVendor::Qualcomm => NPUVendor::Qualcomm,
            NPUVendor::Apple => NPUVendor::Apple,
            NPUVendor::AMD => NPUVendor::AMD,
            NPUVendor::Google => NPUVendor::Google,
            NPUVendor::MediaTek => NPUVendor::MediaTek,
            NPUVendor::Samsung => NPUVendor::Samsung,
            NPUVendor::Hailo => NPUVendor::Hailo,
            NPUVendor::Kneron => NPUVendor::Kneron,
            NPUVendor::Unknown(name) => NPUVendor::Unknown(name.clone()),
        }
    }
}

/// NPU type classification
#[derive(Debug, Clone, Copy, PartialEq, Eq, Structural)]
pub enum NPUType {
    /// Built into CPU/SoC
    Integrated,
    /// Separate accelerator card
    Discrete,
    /// USB-connected device
    USB,
    /// PCIe card
    PCIe,
    /// M.2 module
    M2,
    Unknown,
}

/// NPU architecture information
#[derive(Debug, PartialEq, Eq)]
pub enum NPUArchitecture {
    IntelMovidius,
    IntelGNA,
    IntelXDNA,
    QualcommHexagon,
    AppleNeuralEngine,
    GoogleTPU,
    AMDRyzenAI,
    MediaTekAPU,
    SamsungNPU,
    HailoNPU,
    KneronKL,
    Unknown(String),
}

impl Clone for NPUArchitecture {
    fn clone(&self) -> (r: Self)
        ensures
            r == *self,
    {
        match self {
            NPUArchitecture::IntelMovidius => NPUArchitecture::IntelMovidius,
            NPUArchitecture::IntelGNA => NPUArchitecture::IntelGNA,
            NPUArchitecture::IntelXDNA => NPUArchitecture::IntelXDNA,
            NPUArchitecture::QualcommHexagon => NPUArchitecture::QualcommHexagon,
            NPUArchitecture::AppleNeuralEngine => NPUArchitecture::AppleNeuralEngine,
            NPUArchitecture::GoogleTPU => NPUArchitecture::GoogleTPU,
            NPUArchitecture::AMDRyzenAI => NPUArchitecture::AMDRyzenAI,
            NPUArchitecture::MediaTekAPU => NPUArchitecture::MediaTekAPU,
            NPUArchitecture::SamsungNPU => NPUArchitecture::SamsungNPU,
            NPUArchitecture::HailoNPU => NPUArchitecture::HailoNPU,
            NPUArchitecture::KneronKL => NPUArchitecture::KneronKL,
            NPUArchitecture::Unknown(name) => NPUArchitecture::Unknown(name.clone()),
        }
    }
}

/// NPU information.
#[derive(Debug)]
pub struct NPUInfo {
    /// NPU vendor
    pub vendor: NPUVendor,
    /// NPU model name
    pub model_name: String,
    /// NPU type
    pub npu_type: NPUType,
    /// NPU architecture
    pub architecture: NPUArchitecture,
    /// Performance in hundredths of a TOPS (if known)
    pub tops_centi: Option<u64>,
    /// Memory size in MB (if applicable)
    pub memory_mb: Option<u64>,
    /// Driver version
    pub driver_version: Option<String>,
    /// Supported frameworks
    pub supported_frameworks: Vec<String>,
}

/// Field-by-field equality of two NPU descriptions, over views.
pub open spec fn npu_eq(a: &NPUInfo, b: &NPUInfo) -> bool {
    &&& a.vendor == b.vendor
    &&& a.model_name@ == b.model_name@
    &&& a.npu_type == b.npu_type
    &&& a.architecture == b.architecture
    &&& a.tops_centi == b.tops_centi
    &&& a.memory_mb == b.memory_mb
    &&& a.driver_version == b.driver_version
    &&& a.supported_frameworks@ == b.supported_frameworks@
}

impl Clone for NPUInfo {
    fn clone(&self) -> (r: Self)
        ensures
            npu_eq(&r, self),
    {
        let r = NPUInfo {
            vendor: self.vendor.clone(),
            model_name: self.model_name.clone(),
            npu_type: self.npu_type,
            architecture: self.architecture.clone(),
            tops_centi: self.tops_centi,
            memory_mb: self.memory_mb,
            driver_version: self.driver_version.clone(),
            supported_frameworks: self.supported_frameworks.clone(),
        };
        proof {
            assert(r.supported_frameworks@ =~= self.supported_frameworks@);
        }
        r
    }
}

} // verus!
