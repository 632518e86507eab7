//! CPU description: vendor, core counts, cache sizes, and feature flags.
//!
//! Temperatures are hundredths of a degree Celsius, power is centiwatts,
//! and per-core usage is whole percent, so that every field is plain data.

use vstd::prelude::*;
use vstd::string::StringExecFns;

use crate::strutil;

verus! {

/// CPU vendor
#[derive(Debug, PartialEq, Eq)]
pub enum CPUVendor {
    Intel,
    AMD,
    ARM,
    Apple,
    Unknown(String),
}

impl Clone for CPUVendor {
    fn clone(&self) -> (r: Self)
        ensures
            r == *self,
    {
        match self {
            CPUVendor::Intel => CPUVendor::Intel,
            CPUVendor::AMD => CPUVendor::AMD,
            CPUVendor::ARM => CPUVendor::ARM,
            CPUVendor::Apple => CPUVendor::Apple,
            CPUVendor::Unknown(name) => CPUVendor::Unknown(name.clone()),
        }
    }
}

impl CPUVendor {
    /// The text this vendor renders as.
    pub open spec fn spec_label(&self) -> Seq<char> {
        match self {
            CPUVendor::Intel => "Intel"@,
            CPUVendor::AMD => "AMD"@,
            CPUVendor::ARM => "ARM"@,
            CPUVendor::Apple => "Apple"@,
            CPUVendor::Unknown(name) => name@,
        }
    }

    /// Render the vendor as text.
    pub fn label(&self) -> (r: String)
        ensures
            r@ == self.spec_label(),
    {
        match self {
            CPUVendor::Intel => String::from_str("Intel"),
            CPUVendor::AMD => String::from_str("AMD"),
            CPUVendor::ARM => String::from_str("ARM"),
            CPUVendor::Apple => String::from_str("Apple"),
            CPUVendor::Unknown(name) => name.clone(),
        }
    }

    /// Classify a CPU brand string: the first of Intel, AMD, ARM, Apple whose
    /// name occurs in it (ignoring ASCII case) wins; anything else is `Unknown`
    /// carrying the brand string itself.
    pub fn parse_vendor(brand: &str) -> (r: CPUVendor)
        ensures
            strutil::contains_ci(brand@, "intel"@) ==> r == CPUVendor::Intel,
            !strutil::contains_ci(brand@, "intel"@) && strutil::contains_ci(brand@, "amd"@) ==> r
                == CPUVendor::AMD,
            !strutil::contains_ci(brand@, "intel"@) && !strutil::contains_ci(brand@, "amd"@)
                && strutil::contains_ci(brand@, "arm"@) ==> r == CPUVendor::ARM,
            !strutil::contains_ci(brand@, "intel"@) && !strutil::contains_ci(brand@, "amd"@)
                && !strutil::contains_ci(brand@, "arm"@) && strutil::contains_ci(brand@, "apple"@)
                ==> r == CPUVendor::Apple,
            !strutil::contains_ci(brand@, "intel"@) && !strutil::contains_ci(brand@, "amd"@)
                && !strutil::contains_ci(brand@, "arm"@) && !strutil::contains_ci(brand@, "apple"@)
                ==> (r matches CPUVendor::Unknown(s) && s@ == brand@),
    {
        if strutil::contains_ignore_case(brand, "intel") {
            CPUVendor::Intel
        } else if strutil::contains_ignore_case(brand, "amd") {
            CPUVendor::AMD
        } else if strutil::contains_ignore_case(brand, "arm") {
            CPUVendor::ARM
        } else if strutil::contains_ignore_case(brand, "apple") {
            CPUVendor::Apple
        } else {
            CPUVendor::Unknown(String::from_str(brand))
        }
    }
}

/// CPU instruction-set features relevant to performance and AI workloads.
#[derive(Debug, PartialEq, Eq)]
pub enum CPUFeature {
    AVX,
    AVX2,
    AVX512,
    SSE,
    SSE2,
    SSE3,
    SSE41,
    SSE42,
    FMA,
    AES,
    SHA,
    BMI1,
    BMI2,
    RDRAND,
    RDSEED,
    POPCNT,
    LZCNT,
    MOVBE,
    PREFETCHWT1,
    CLFLUSHOPT,
    CLWB,
    XSAVE,
    XSAVEOPT,
    XSAVEC,
    XSAVES,
    FSGSBASE,
    RDTSCP,
    F16C,
    Unknown(String),
}

impl Clone for CPUFeature {
    fn clone(&self) -> (r: Self)
        ensures
            r == *self,
    {
        match self {
            CPUFeature::AVX => CPUFeature::AVX,
            CPUFeature::AVX2 => CPUFeature::AVX2,
            CPUFeature::AVX512 => CPUFeature::AVX512,
            CPUFeature::SSE => CPUFeature::SSE,
            CPUFeature::SSE2 => CPUFeature::SSE2,
            CPUFeature::SSE3 => CPUFeature::SSE3,
            CPUFeature::SSE41 => CPUFeature::SSE41,
            CPUFeature::SSE42 => CPUFeature::SSE42,
            CPUFeature::FMA => CPUFeature::FMA,
            CPUFeature::AES => CPUFeature::AES,
            CPUFeature::SHA => CPUFeature::SHA,
            CPUFeature::BMI1 => CPUFeature::BMI1,
            CPUFeature::BMI2 => CPUFeature::BMI2,
            CPUFeature::RDRAND => CPUFeature::RDRAND,
            CPUFeature::RDSEED => CPUFeature::RDSEED,
            CPUFeature::POPCNT => CPUFeature::POPCNT,
            CPUFeature::LZCNT => CPUFeature::LZCNT,
            CPUFeature::MOVBE => CPUFeature::MOVBE,
            CPUFeature::PREFETCHWT1 => CPUFeature::PREFETCHWT1,
            CPUFeature::CLFLUSHOPT => CPUFeature::CLFLUSHOPT,
            CPUFeature::CLWB => CPUFeature::CLWB,
            CPUFeature::XSAVE => CPUFeature::XSAVE,
            CPUFeature::XSAVEOPT => CPUFeature::XSAVEOPT,
            CPUFeature::XSAVEC => CPUFeature::XSAVEC,
            CPUFeature::XSAVES => CPUFeature::XSAVES,
            CPUFeature::FSGSBASE => CPUFeature::FSGSBASE,
            CPUFeature::RDTSCP => CPUFeature::RDTSCP,
            CPUFeature::F16C => CPUFeature::F16C,
            CPUFeature::Unknown(name) => CPUFeature::Unknown(name.clone()),
        }
    }
}

impl CPUFeature {
    /// The text this feature renders as.
    pub open spec fn spec_label(&self) -> Seq<char> {
        match self {
            CPUFeature::AVX => "AVX"@,
            CPUFeature::AVX2 => "AVX2"@,
            CPUFeature::AVX512 => "AVX512"@,
            CPUFeature::SSE => "SSE"@,
            CPUFeature::SSE2 => "SSE2"@,
            CPUFeature::SSE3 => "SSE3"@,
            CPUFeature::SSE41 => "SSE4.1"@,
            CPUFeature::SSE42 => "SSE4.2"@,
            CPUFeature::FMA => "FMA"@,
            CPUFeature::AES => "AES"@,
            CPUFeature::SHA => "SHA"@,
            CPUFeature::BMI1 => "BMI1"@,
            CPUFeature::BMI2 => "BMI2"@,
            CPUFeature::RDRAND => "RDRAND"@,
            CPUFeature::RDSEED => "RDSEED"@,
            CPUFeature::POPCNT => "POPCNT"@,
            CPUFeature::LZCNT => "LZCNT"@,
            CPUFeature::MOVBE => "MOVBE"@,
            CPUFeature::PREFETCHWT1 => "PREFETCHWT1"@,
            CPUFeature::CLFLUSHOPT => "CLFLUSHOPT"@,
            CPUFeature::CLWB => "CLWB"@,
            CPUFeature::XSAVE => "XSAVE"@,
            CPUFeature::XSAVEOPT => "XSAVEOPT"@,
            CPUFeature::XSAVEC => "XSAVEC"@,
            CPUFeature::XSAVES => "XSAVES"@,
            CPUFeature::FSGSBASE => "FSGSBASE"@,
            CPUFeature::RDTSCP => "RDTSCP"@,
            CPUFeature::F16C => "F16C"@,
            CPUFeature::Unknown(name) => name@,
        }
    }

    /// Render the feature as text.
    pub fn label(&self) -> (r: String)
        ensures
            r@ == self.spec_label(),
    {
        match self {
            CPUFeature::AVX => String::from_str("AVX"),
            CPUFeature::AVX2 => String::from_str("AVX2"),
            CPUFeature::AVX512 => String::from_str("AVX512"),
            CPUFeature::SSE => String::from_str("SSE"),
            CPUFeature::SSE2 => String::from_str("SSE2"),
            CPUFeature::SSE3 => String::from_str("SSE3"),
            CPUFeature::SSE41 => String::from_str("SSE4.1"),
            CPUFeature::SSE42 => String::from_str("SSE4.2"),
            CPUFeature::FMA => String::from_str("FMA"),
            CPUFeature::AES => String::from_str("AES"),
            CPUFeature::SHA => String::from_str("SHA"),
            CPUFeature::BMI1 => String::from_str("BMI1"),
            CPUFeature::BMI2 => String::from_str("BMI2"),
            CPUFeature::RDRAND => String::from_str("RDRAND"),
            CPUFeature::RDSEED => String::from_str("RDSEED"),
            CPUFeature::POPCNT => String::from_str("POPCNT"),
            CPUFeature::LZCNT => String::from_str("LZCNT"),
            CPUFeature::MOVBE => String::from_str("MOVBE"),
            CPUFeature::PREFETCHWT1 => String::from_str("PREFETCHWT1"),
            CPUFeature::CLFLUSHOPT => String::from_str("CLFLUSHOPT"),
            CPUFeature::CLWB => String::from_str("CLWB"),
            CPUFeature::XSAVE => String::from_str("XSAVE"),
            CPUFeature::XSAVEOPT => String::from_str("XSAVEOPT"),
            CPUFeature::XSAVEC => String::from_str("XSAVEC"),
            CPUFeature::XSAVES => String::from_str("XSAVES"),
            CPUFeature::FSGSBASE => String::from_str("FSGSBASE"),
            CPUFeature::RDTSCP => String::from_str("RDTSCP"),
            CPUFeature::F16C => String::from_str("F16C"),
            CPUFeature::Unknown(name) => name.clone(),
        }
    }
}

/// CPU information and specifications.
#[derive(Debug)]
pub struct CPUInfo {
    /// CPU vendor
    pub vendor: CPUVendor,
    /// CPU model name
    pub model_name: String,
    /// CPU brand string
    pub brand: String,
    /// Number of physical cores
    pub physical_cores: u32,
    /// Number of logical cores (threads)
    pub logical_cores: u32,
    /// Base frequency in MHz
    pub base_frequency: u32,
    /// Maximum frequency in MHz
    pub max_frequency: u32,
    /// L1 cache size in KB
    pub l1_cache_kb: u32,
    /// L2 cache size in KB
    pub l2_cache_kb: u32,
    /// L3 cache size in KB
    pub l3_cache_kb: u32,
    /// CPU features supported
    pub features: Vec<CPUFeature>,
    /// Architecture (x86_64, arm64, etc.)
    pub architecture: String,
    /// CPU usage percentage per core (whole percent)
    pub core_usage: Vec<u32>,
    /// CPU temperature in hundredths of a degree Celsius (if available)
    pub temperature_centi: Option<i32>,
    /// CPU power consumption in centiwatts (if available)
    pub power_centiw: Option<u64>,
}

/// Field-by-field equality of two CPU descriptions, over views.
pub open spec fn cpu_eq(a: &CPUInfo, b: &CPUInfo) -> bool {
    &&& a.vendor == b.vendor
    &&& a.model_name@ == b.model_name@
    &&& a.brand@ == b.brand@
    &&& a.physical_cores == b.physical_cores
    &&& a.logical_cores == b.logical_cores
    &&& a.base_frequency == b.base_frequency
    &&& a.max_frequency == b.max_frequency
    &&& a.l1_cache_kb == b.l1_cache_kb
    &&& a.l2_cache_kb == b.l2_cache_kb
    &&& a.l3_cache_kb == b.l3_cache_kb
    &&& a.features@ == b.features@
    &&& a.architecture@ == b.architecture@
    &&& a.core_usage@ == b.core_usage@
    &&& a.temperature_centi == b.temperature_centi
    &&& a.power_centiw == b.power_centiw
}

impl Clone for CPUInfo {
    fn clone(&self) -> (r: Self)
        ensures
            cpu_eq(&r, self),
    {
        let r = CPUInfo {
            vendor: self.vendor.clone(),
            model_name: self.model_name.clone(),
            brand: self.brand.clone(),
            physical_cores: self.physical_cores,
            logical_cores: self.logical_cores,
            base_frequency: self.base_frequency,
            max_frequency: self.max_frequency,
            l1_cache_kb: self.l1_cache_kb,
            l2_cache_kb: self.l2_cache_kb,
            l3_cache_kb: self.l3_cache_kb,
            features: self.features.clone(),
            architecture: self.architecture.clone(),
            core_usage: self.core_usage.clone(),
            temperature_centi: self.temperature_centi,
            power_centiw: self.power_centiw,
        };
        proof {
            assert(r.features@ =~= self.features@);
            assert(r.core_usage@ =~= self.core_usage@);
        }
        r
    }
}

impl CPUInfo {
    /// Get CPU vendor.
    pub fn vendor(&self) -> (r: &CPUVendor)
        ensures
            r == &self.vendor,
    {
        &self.vendor
    }

    /// Get CPU model name.
    pub fn model_name(&self) -> (r: &str)
        ensures
            r@ == self.model_name@,
    {
        self.model_name.as_str()
    }

    /// Get CPU brand string.
    pub fn brand(&self) -> (r: &str)
        ensures
            r@ == self.brand@,
    {
        self.brand.as_str()
    }

    /// Get number of physical cores.
    pub fn physical_cores(&self) -> (r: u32)
        ensures
            r == self.physical_cores,
    {
        self.physical_cores
    }

    /// Get number of logical cores (threads).
    pub fn logical_cores(&self) -> (r: u32)
        ensures
            r == self.logical_cores,
    {
        self.logical_cores
    }

    /// Get base frequency in MHz.
    pub fn base_frequency(&self) -> (r: u32)
        ensures
            r == self.base_frequency,
    {
        self.base_frequency
    }

    /// Get maximum frequency in MHz.
    pub fn max_frequency(&self) -> (r: u32)
        ensures
            r == self.max_frequency,
    {
        self.max_frequency
    }

    /// Get L1 cache size in KB.
    pub fn l1_cache_kb(&self) -> (r: u32)
        ensures
            r == self.l1_cache_kb,
    {
        self.l1_cache_kb
    }

    /// Get L2 cache size in KB.
    pub fn l2_cache_kb(&self) -> (r: u32)
        ensures
            r == self.l2_cache_kb,
    {
        self.l2_cache_kb
    }

    /// Get L3 cache size in KB.
    pub fn l3_cache_kb(&self) -> (r: u32)
        ensures
            r == self.l3_cache_kb,
    {
        self.l3_cache_kb
    }

    /// Get the supported features.
    pub fn features(&self) -> (r: &Vec<CPUFeature>)
        ensures
            r == &self.features,
    {
        &self.features
    }

    /// Get CPU architecture.
    pub fn architecture(&self) -> (r: &str)
        ensures
            r@ == self.architecture@,
    {
        self.architecture.as_str()
    }

    /// Does the CPU report a feature whose name equals `feature`, ignoring
    /// ASCII case?
    pub fn has_feature(&self, feature: &str) -> (r: bool)
        ensures
            r == spec_has_feature(self, feature@),
    {
        let n = self.features.len();
        let mut i: usize = 0;
        while i < n
            invariant
                n == self.features@.len(),
                i <= n,
                forall|k: int|
                    0 <= k < i ==> !strutil::eq_ci(
                        #[trigger] self.features@[k].spec_label(),
                        feature@,
                    ),
            decreases n - i,
        {
            let name = self.features[i].label();
            if strutil::eq_ignore_case(name.as_str(), feature) {
                return true;
            }
            i += 1;
        }
        false
    }
}

/// The CPU reports a feature whose name equals `feature`, ignoring ASCII
/// case.
pub open spec fn spec_has_feature(c: &CPUInfo, feature: Seq<char>) -> bool {
    exists|i: int|
        0 <= i < c.features@.len() && strutil::eq_ci(
            #[trigger] c.features@[i].spec_label(),
            feature,
        )
}

} // verus!
