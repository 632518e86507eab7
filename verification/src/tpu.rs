//! Tensor processing unit (TPU) description.

use vstd::prelude::*;

verus! {

/// TPU vendor
#[derive(Debug, PartialEq, Eq)]
pub enum TPUVendor {
    Google,
    Intel,
    Groq,
    Cerebras,
    Unknown(String),
}

impl Clone for TPUVendor {
    fn clone(&self) -> (r: Self)
        ensures
            r == *self,
    {
        match self {
            TPUVendor::Google => TPUVendor::Google,
            TPUVendor::Intel => TPUVendor::Intel,
            TPUVendor::Groq => TPUVendor::Groq,
            TPUVendor::Cerebras => TPUVendor::Cerebras,
            TPUVendor::Unknown(name) => TPUVendor::Unknown(name.clone()),
        }
    }
}

/// TPU generation and architecture
#[derive(Debug, PartialEq, Eq)]
pub enum TPUArchitecture {
    GoogleTPUv2,
    GoogleTPUv3,
    GoogleTPUv4,
    GoogleTPUv5,
    GoogleCoralEdge,
    IntelHabanaGaudi,
    IntelHabanaGaudi2,
    IntelHabanaGoya,
    GroqLPU,
    CerebrasWSE,
    Unknown(String),
}

impl Clone for TPUArchitecture {
    fn clone(&self) -> (r: Self)
        ensures
            r == *self,
    {
        match self {
            TPUArchitecture::GoogleTPUv2 => TPUArchitecture::GoogleTPUv2,
            TPUArchitecture::GoogleTPUv3 => TPUArchitecture::GoogleTPUv3,
            TPUArchitecture::GoogleTPUv4 => TPUArchitecture::GoogleTPUv4,
            TPUArchitecture::GoogleTPUv5 => TPUArchitecture::GoogleTPUv5,
            TPUArchitecture::GoogleCoralEdge => TPUArchitecture::GoogleCoralEdge,
            TPUArchitecture::IntelHabanaGaudi => TPUArchitecture::IntelHabanaGaudi,
            TPUArchitecture::IntelHabanaGaudi2 => TPUArchitecture::IntelHabanaGaudi2,
            TPUArchitecture::IntelHabanaGoya => TPUArchitecture::IntelHabanaGoya,
            TPUArchitecture::GroqLPU => TPUArchitecture::GroqLPU,
            TPUArchitecture::CerebrasWSE => TPUArchitecture::CerebrasWSE,
            TPUArchitecture::Unknown(name) => TPUArchitecture::Unknown(name.clone()),
        }
    }
}

/// TPU connection type
#[derive(Debug, Clone, Copy, PartialEq, Eq, Structural)]
pub enum TPUConnectionType {
    /// Cloud-hosted TPU
    CloudTPU,
    /// PCIe card
    PCIe,
    /// USB device (Edge TPU)
    USB,
    /// M.2 module
    M2,
    /// Network-attached
    Network,
    Unknown,
}

/// TPU information.
#[derive(Debug)]
pub struct TPUInfo {
    /// TPU vendor
    pub vendor: TPUVendor,
    /// TPU model name
    pub model_name: String,
    /// TPU architecture/generation
    pub architecture: TPUArchitecture,
    /// Connection type
    pub connection_type: TPUConnectionType,
    /// Performance in hundredths of a TOPS (if known)
    pub tops_centi: Option<u64>,
    /// Memory size in MB (if known)
    pub memory_mb: Option<u64>,
    /// Number of cores/processing units
    pub core_count: Option<u32>,
    /// Driver version
    pub driver_version: Option<String>,
    /// Supported frameworks
    pub supported_frameworks: Vec<String>,
}

/// Field-by-field equality of two TPU descriptions, over views.
pub open spec fn tpu_eq(a: &TPUInfo, b: &TPUInfo) -> bool {
    &&& a.vendor == b.vendor
    &&& a.model_name@ == b.model_name@
    &&& a.architecture == b.architecture
    &&& a.connection_type == b.connection_type
    &&& a.tops_centi == b.tops_centi
    &&& a.memory_mb == b.memory_mb
    &&& a.core_count == b.core_count
    &&& a.driver_version == b.driver_version
    &&& a.supported_frameworks@ == b.supported_frameworks@
}

impl Clone for TPUInfo {
    fn clone(&self) -> (r: Self)
        ensures
            tpu_eq(&r, self),
    {
        let r = TPUInfo {
            vendor: self.vendor.clone(),
            model_name: self.model_name.clone(),
            architecture: self.architecture.clone(),
            connection_type: self.connection_type,
            tops_centi: self.tops_centi,
            memory_mb: self.memory_mb,
            core_count: self.core_count,
            driver_version: self.driver_version.clone(),
            supported_frameworks: self.supported_frameworks.clone(),
        };
        proof {
            assert(r.supported_frameworks@ =~= self.supported_frameworks@);
        }
        r
    }
}

} // verus!
