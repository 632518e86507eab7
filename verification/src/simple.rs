//! Simplified system overview: the most commonly needed information,
//! derived from a full hardware snapshot by exactly the rules stated
//! here.  Sizes are megabytes; a size counts as "at least N GB" when it
//! is at least `N * 1024` MB.

use vstd::prelude::*;
use vstd::string::StringExecFns;

use crate::cpu::spec_has_feature;
use crate::gpu::GPUInfo;
use crate::hardware::HardwareInfo;
use crate::num;
use crate::num::sat_add_u64;
use crate::storage::StorageInfo;
use crate::strutil;
use crate::strutil::contains_ci;
use crate::strutil::strings_view;
use crate::thermal::spec_max_temperature;

verus! {

/// Simplified CPU information.
#[derive(Debug)]
pub struct SimpleCPU {
    /// CPU model name
    pub name: String,
    /// Number of physical cores
    pub cores: u32,
    /// Number of logical cores (threads)
    pub threads: u32,
    /// Vendor (Intel, AMD, Apple, etc.)
    pub vendor: String,
    /// Supports AI acceleration features
    pub ai_capable: bool,
}

/// Simplified GPU information.
#[derive(Debug)]
pub struct SimpleGPU {
    /// GPU model name
    pub name: String,
    /// VRAM in MB
    pub vram_mb: u64,
    /// Vendor (NVIDIA, AMD, Intel, etc.)
    pub vendor: String,
    /// Supports hardware acceleration for AI/ML
    pub ai_capable: bool,
}

/// Simplified storage summary.
#[derive(Debug)]
pub struct SimpleStorage {
    /// Total storage capacity in MB
    pub total_mb: u64,
    /// Available storage in MB
    pub available_mb: u64,
    /// Primary drive type (SSD, HDD, NVMe, etc.)
    pub drive_type: String,
    /// Storage health (Good, Warning, Critical)
    pub health: String,
}

/// Overall system health status
#[derive(Debug, Clone, Copy, PartialEq, Eq, Structural)]
pub enum HealthStatus {
    /// Everything is running optimally
    Excellent,
    /// System is running well
    Good,
    /// Minor issues detected
    Fair,
    /// Significant issues that should be addressed
    Poor,
    /// Critical issues requiring immediate attention
    Critical,
}

impl HealthStatus {
    /// The text this status renders as.
    pub open spec fn spec_label(&self) -> Seq<char> {
        match self {
            HealthStatus::Excellent => "Excellent"@,
            HealthStatus::Good => "Good"@,
            HealthStatus::Fair => "Fair"@,
            HealthStatus::Poor => "Poor"@,
            HealthStatus::Critical => "Critical"@,
        }
    }

    /// Render the status as text.
    pub fn label(&self) -> (r: String)
        ensures
            r@ == self.spec_label(),
    {
        match self {
            HealthStatus::Excellent => String::from_str("Excellent"),
            HealthStatus::Good => String::from_str("Good"),
            HealthStatus::Fair => String::from_str("Fair"),
            HealthStatus::Poor => String::from_str("Poor"),
            HealthStatus::Critical => String::from_str("Critical"),
        }
    }
}

/// Temperature status
#[derive(Debug, Clone, Copy, PartialEq, Eq, Structural)]
pub enum TemperatureStatus {
    /// Temperatures are normal
    Normal,
    /// Temperatures are elevated but acceptable
    Warm,
    /// High temperatures detected
    Hot,
    /// Critical temperatures that may cause throttling
    Critical,
}

impl TemperatureStatus {
    /// The text this status renders as.
    pub open spec fn spec_label(&self) -> Seq<char> {
        match self {
            TemperatureStatus::Normal => "Normal"@,
            TemperatureStatus::Warm => "Warm"@,
            TemperatureStatus::Hot => "Hot"@,
            TemperatureStatus::Critical => "Critical"@,
        }
    }

    /// Render the status as text.
    pub fn label(&self) -> (r: String)
        ensures
            r@ == self.spec_label(),
    {
        match self {
            TemperatureStatus::Normal => String::from_str("Normal"),
            TemperatureStatus::Warm => String::from_str("Warm"),
            TemperatureStatus::Hot => String::from_str("Hot"),
            TemperatureStatus::Critical => String::from_str("Critical"),
        }
    }
}

/// Power consumption status
#[derive(Debug, Clone, Copy, PartialEq, Eq, Structural)]
pub enum PowerStatus {
    /// Low power consumption
    Low,
    /// Normal power consumption
    Normal,
    /// High power consumption
    High,
    /// Very high power consumption
    VeryHigh,
}

impl PowerStatus {
    /// The text this status renders as.
    pub open spec fn spec_label(&self) -> Seq<char> {
        match self {
            PowerStatus::Low => "Low"@,
            PowerStatus::Normal => "Normal"@,
            PowerStatus::High => "High"@,
            PowerStatus::VeryHigh => "Very High"@,
        }
    }

    /// Render the status as text.
    pub fn label(&self) -> (r: String)
        ensures
            r@ == self.spec_label(),
    {
        match self {
            PowerStatus::Low => String::from_str("Low"),
            PowerStatus::Normal => String::from_str("Normal"),
            PowerStatus::High => String::from_str("High"),
            PowerStatus::VeryHigh => String::from_str("Very High"),
        }
    }
}

/// System health overview.
#[derive(Debug)]
pub struct SystemHealth {
    /// Overall health status
    pub status: HealthStatus,
    /// Current temperature status
    pub temperature: TemperatureStatus,
    /// Power consumption level
    pub power: PowerStatus,
    /// Any warnings or recommendations
    pub warnings: Vec<String>,
}

/// Simplified system overview with the most commonly needed information.
#[derive(Debug)]
pub struct SystemOverview {
    /// CPU name and core count
    pub cpu: SimpleCPU,
    /// Total system memory in MB
    pub memory_mb: u64,
    /// GPU information (if available)
    pub gpu: Option<SimpleGPU>,
    /// Storage summary
    pub storage: SimpleStorage,
    /// System health status
    pub health: SystemHealth,
    /// Environment type (native, container, VM, etc.)
    pub environment: String,
    /// Overall performance score (0-100)
    pub performance_score: u8,
}

/// The CPU counts as AI-capable: it reports AVX2, AVX-512 or AMX, or the
/// machine has an NPU.
pub open spec fn spec_cpu_ai_capable(hw: &HardwareInfo) -> bool {
    ||| spec_has_feature(&hw.cpu, "avx2"@)
    ||| spec_has_feature(&hw.cpu, "avx512"@)
    ||| spec_has_feature(&hw.cpu, "amx"@)
    ||| hw.npus@.len() > 0
}

/// The GPU counts as AI-capable: NVIDIA; AMD with an RX or Radeon model;
/// or an Intel Arc model (names compared ignoring ASCII case).
pub open spec fn spec_gpu_ai_capable(g: &GPUInfo) -> bool {
    ||| contains_ci(g.vendor.spec_label(), "nvidia"@)
    ||| (contains_ci(g.vendor.spec_label(), "amd"@) && (contains_ci(g.model_name@, "rx"@)
        || contains_ci(g.model_name@, "radeon"@)))
    ||| (contains_ci(g.vendor.spec_label(), "intel"@) && contains_ci(g.model_name@, "arc"@))
}

/// Total capacity of the first `i` storage devices, saturating at
/// `u64::MAX`.
pub open spec fn storage_total_upto(s: Seq<StorageInfo>, i: int) -> u64
    decreases i,
{
    if i <= 0 {
        0u64
    } else {
        sat_add_u64(storage_total_upto(s, i - 1), s[i - 1].capacity_mb)
    }
}

/// Available space on the first `i` storage devices, saturating at
/// `u64::MAX`.
pub open spec fn storage_available_upto(s: Seq<StorageInfo>, i: int) -> u64
    decreases i,
{
    if i <= 0 {
        0u64
    } else {
        sat_add_u64(storage_available_upto(s, i - 1), s[i - 1].available_mb)
    }
}

/// The health text of a storage summary: critical below one tenth free,
/// a warning below one fifth, good otherwise.
pub open spec fn spec_storage_health(total_mb: u64, available_mb: u64) -> Seq<char> {
    if available_mb * 10 < total_mb {
        "Critical - Low space"@
    } else if available_mb * 5 < total_mb {
        "Warning - Low space"@
    } else {
        "Good"@
    }
}

/// Temperature status of a snapshot: bucketed by the hottest sensor at
/// 90, 80 and 70 degrees Celsius; normal when there are no sensors.
pub open spec fn spec_temperature_status(hw: &HardwareInfo) -> TemperatureStatus {
    match spec_max_temperature(hw.thermal.sensors@) {
        Option::Some(m) => if m >= 9000 {
            TemperatureStatus::Critical
        } else if m >= 8000 {
            TemperatureStatus::Hot
        } else if m >= 7000 {
            TemperatureStatus::Warm
        } else {
            TemperatureStatus::Normal
        },
        Option::None => TemperatureStatus::Normal,
    }
}

/// The warnings attached to the health assessment: one for critical
/// temperatures, one for elevated ones.
pub open spec fn spec_health_warnings(hw: &HardwareInfo) -> Seq<Seq<char>> {
    match spec_max_temperature(hw.thermal.sensors@) {
        Option::Some(m) => if m >= 9000 {
            seq!["High CPU/GPU temperatures detected"@]
        } else if m >= 8000 {
            seq!["Elevated temperatures detected"@]
        } else {
            Seq::empty()
        },
        Option::None => Seq::empty(),
    }
}

/// Power status of a snapshot: bucketed by the total draw at 200, 100 and
/// 50 watts; normal without a power profile or a draw reading.
pub open spec fn spec_power_status(hw: &HardwareInfo) -> PowerStatus {
    match hw.power_profile {
        Option::Some(p) => match p.total_power_draw_centiw {
            Option::Some(draw) => if draw > 20000 {
                PowerStatus::VeryHigh
            } else if draw > 10000 {
                PowerStatus::High
            } else if draw > 5000 {
                PowerStatus::Normal
            } else {
                PowerStatus::Low
            },
            Option::None => PowerStatus::Normal,
        },
        Option::None => PowerStatus::Normal,
    }
}

/// Overall health from the temperature status, the power status, and the
/// number of warnings.
pub open spec fn spec_overall_health(
    temperature: TemperatureStatus,
    power: PowerStatus,
    warning_count: int,
) -> HealthStatus {
    if temperature == TemperatureStatus::Critical {
        HealthStatus::Critical
    } else if temperature == TemperatureStatus::Hot && power == PowerStatus::VeryHigh {
        HealthStatus::Poor
    } else if temperature == TemperatureStatus::Hot {
        HealthStatus::Fair
    } else if power == PowerStatus::VeryHigh {
        HealthStatus::Fair
    } else if warning_count > 2 {
        HealthStatus::Poor
    } else if warning_count > 0 {
        HealthStatus::Fair
    } else if temperature == TemperatureStatus::Normal && (power == PowerStatus::Normal || power
        == PowerStatus::Low) {
        HealthStatus::Excellent
    } else {
        HealthStatus::Good
    }
}

/// Performance score of a snapshot before the virtualization scaling:
/// CPU (up to 30), memory (up to 25), GPU (up to 30) and storage (up to
/// 15) contributions.
pub open spec fn spec_raw_performance_score(hw: &HardwareInfo) -> int {
    (if hw.cpu.logical_cores >= 16 {
        30int
    } else if hw.cpu.logical_cores >= 8 {
        25int
    } else if hw.cpu.logical_cores >= 4 {
        20int
    } else {
        10int
    }) + (if hw.memory.total_mb >= 32768 {
        25int
    } else if hw.memory.total_mb >= 16384 {
        20int
    } else if hw.memory.total_mb >= 8192 {
        15int
    } else {
        5int
    }) + (if hw.gpus@.len() > 0 {
        if hw.gpus@[0].memory_mb >= 12288 {
            30int
        } else if hw.gpus@[0].memory_mb >= 8192 {
            25int
        } else if hw.gpus@[0].memory_mb >= 4096 {
            20int
        } else {
            10int
        }
    } else {
        0int
    }) + (if hw.storage_devices@.len() > 0 {
        if hw.storage_devices@[0].storage_type == crate::storage::StorageType::NVMe {
            15int
        } else if hw.storage_devices@[0].storage_type == crate::storage::StorageType::SSD {
            12int
        } else {
            5int
        }
    } else {
        0int
    })
}

/// Performance score of a snapshot: the raw score scaled by the
/// virtualization environment's performance factor, capped at 100.
pub open spec fn spec_performance_score(hw: &HardwareInfo) -> int {
    let scaled = spec_raw_performance_score(hw) * (hw.virtualization.performance_percent as int)
        / 100;
    if scaled > 100 {
        100int
    } else {
        scaled
    }
}

impl SystemOverview {
    /// Does the CPU of this snapshot count as AI-capable?
    pub fn check_cpu_ai_capabilities(hw: &HardwareInfo) -> (r: bool)
        ensures
            r == spec_cpu_ai_capable(hw),
    {
        hw.cpu.has_feature("avx2") || hw.cpu.has_feature("avx512") || hw.cpu.has_feature("amx")
            || hw.npus.len() > 0
    }

    /// Does this GPU count as AI-capable?
    pub fn check_gpu_ai_capabilities(gpu: &GPUInfo) -> (r: bool)
        ensures
            r == spec_gpu_ai_capable(gpu),
    {
        let vendor = gpu.vendor.label();
        if strutil::contains_ignore_case(vendor.as_str(), "nvidia") {
            return true;
        }
        if strutil::contains_ignore_case(vendor.as_str(), "amd") && (strutil::contains_ignore_case(
            gpu.model_name.as_str(),
            "rx",
        ) || strutil::contains_ignore_case(gpu.model_name.as_str(), "radeon")) {
            return true;
        }
        if strutil::contains_ignore_case(vendor.as_str(), "intel") && strutil::contains_ignore_case(
            gpu.model_name.as_str(),
            "arc",
        ) {
            return true;
        }
        false
    }

    /// Summarize the storage devices: total and available capacity
    /// (saturating), the first device's type as the primary drive type,
    /// and a space-based health text.
    pub fn calculate_storage_summary(hw: &HardwareInfo) -> (r: SimpleStorage)
        ensures
            hw.storage_devices@.len() == 0 ==> r.total_mb == 0 && r.available_mb == 0
                && r.drive_type@ == "Unknown"@ && r.health@ == "Unknown"@,
            hw.storage_devices@.len() > 0 ==> {
                &&& r.total_mb == storage_total_upto(
                    hw.storage_devices@,
                    hw.storage_devices@.len() as int,
                )
                &&& r.available_mb == storage_available_upto(
                    hw.storage_devices@,
                    hw.storage_devices@.len() as int,
                )
                &&& r.drive_type@ == hw.storage_devices@[0].storage_type.spec_label()
                &&& r.health@ == spec_storage_health(r.total_mb, r.available_mb)
            },
    {
        let n = hw.storage_devices.len();
        if n == 0 {
            return SimpleStorage {
                total_mb: 0,
                available_mb: 0,
                drive_type: String::from_str("Unknown"),
                health: String::from_str("Unknown"),
            };
        }
        let mut total_mb: u64 = 0;
        let mut available_mb: u64 = 0;
        let mut i: usize = 0;
        while i < n
            invariant
                n == hw.storage_devices@.len(),
                i <= n,
                total_mb == storage_total_upto(hw.storage_devices@, i as int),
                available_mb == storage_available_upto(hw.storage_devices@, i as int),
            decreases n - i,
        {
            total_mb = num::saturating_add(total_mb, hw.storage_devices[i].capacity_mb);
            available_mb = num::saturating_add(available_mb, hw.storage_devices[i].available_mb);
            i += 1;
        }
        let drive_type = hw.storage_devices[0].drive_type().label();
        let health = if (available_mb as u128) * 10 < total_mb as u128 {
            String::from_str("Critical - Low space")
        } else if (available_mb as u128) * 5 < total_mb as u128 {
            String::from_str("Warning - Low space")
        } else {
            String::from_str("Good")
        };
        SimpleStorage { total_mb, available_mb, drive_type, health }
    }

    /// Assess the system's health: temperature and power buckets, their
    /// warnings, and the overall status.
    pub fn assess_system_health(hw: &HardwareInfo) -> (r: SystemHealth)
        ensures
            r.temperature == spec_temperature_status(hw),
            r.power == spec_power_status(hw),
            strings_view(r.warnings@) == spec_health_warnings(hw),
            r.status == spec_overall_health(
                spec_temperature_status(hw),
                spec_power_status(hw),
                spec_health_warnings(hw).len() as int,
            ),
    {
        let mut warnings: Vec<String> = Vec::new();
        let max_temp = hw.thermal.max_temperature();
        let temperature = match max_temp {
            Option::Some(m) => {
                if m >= 9000 {
                    warnings.push(String::from_str("High CPU/GPU temperatures detected"));
                    TemperatureStatus::Critical
                } else if m >= 8000 {
                    warnings.push(String::from_str("Elevated temperatures detected"));
                    TemperatureStatus::Hot
                } else if m >= 7000 {
                    TemperatureStatus::Warm
                } else {
                    TemperatureStatus::Normal
                }
            },
            Option::None => TemperatureStatus::Normal,
        };
        proof {
            assert(strings_view(warnings@) =~= spec_health_warnings(hw));
        }

        let power = match hw.power_profile.as_ref() {
            Option::Some(p) => match p.total_power_draw_centiw {
                Option::Some(draw) => {
                    if draw > 20000 {
                        PowerStatus::VeryHigh
                    } else if draw > 10000 {
                        PowerStatus::High
                    } else if draw > 5000 {
                        PowerStatus::Normal
                    } else {
                        PowerStatus::Low
                    }
                },
                Option::None => PowerStatus::Normal,
            },
            Option::None => PowerStatus::Normal,
        };

        let n_warnings = warnings.len();
        let status = if matches!(temperature, TemperatureStatus::Critical) {
            HealthStatus::Critical
        } else if matches!(temperature, TemperatureStatus::Hot) && matches!(
            power,
            PowerStatus::VeryHigh,
        ) {
            HealthStatus::Poor
        } else if matches!(temperature, TemperatureStatus::Hot) {
            HealthStatus::Fair
        } else if matches!(power, PowerStatus::VeryHigh) {
            HealthStatus::Fair
        } else if n_warnings > 2 {
            HealthStatus::Poor
        } else if n_warnings > 0 {
            HealthStatus::Fair
        } else if matches!(temperature, TemperatureStatus::Normal) && (matches!(
            power,
            PowerStatus::Normal,
        ) || matches!(power, PowerStatus::Low)) {
            HealthStatus::Excellent
        } else {
            HealthStatus::Good
        };

        SystemHealth { status, temperature, power, warnings }
    }

    /// Performance score of a snapshot, 0 to 100.
    pub fn calculate_performance_score(hw: &HardwareInfo) -> (r: u8)
        ensures
            r == spec_performance_score(hw),
    {
        let mut score: u64 = 0;
        let cores = hw.cpu.logical_cores;
        score += if cores >= 16 {
            30
        } else if cores >= 8 {
            25
        } else if cores >= 4 {
            20
        } else {
            10
        };
        let memory_mb = hw.memory.total_mb;
        score += if memory_mb >= 32768 {
            25
        } else if memory_mb >= 16384 {
            20
        } else if memory_mb >= 8192 {
            15
        } else {
            5
        };
        if hw.gpus.len() > 0 {
            let vram = hw.gpus[0].memory_mb;
            score += if vram >= 12288 {
                30
            } else if vram >= 8192 {
                25
            } else if vram >= 4096 {
                20
            } else {
                10
            };
        }
        if hw.storage_devices.len() > 0 {
            score += match hw.storage_devices[0].storage_type {
                crate::storage::StorageType::NVMe => 15,
                crate::storage::StorageType::SSD => 12,
                _ => 5,
            };
        }
        let percent = hw.virtualization.get_performance_factor_percent();
        proof {
            assert(score <= 100);
            assert(score * percent <= 100 * (u32::MAX as int)) by (nonlinear_arith)
                requires
                    score <= 100,
                    percent <= u32::MAX,
            ;
        }
        let scaled: u128 = (score as u128) * (percent as u128) / 100;
        if scaled > 100 {
            100
        } else {
            scaled as u8
        }
    }

    /// Build the overview from a full hardware snapshot.
    pub fn from_hardware_info(hw_info: &HardwareInfo) -> (r: Result<
        SystemOverview,
        crate::error::HardwareQueryError,
    >)
        ensures
            r matches Ok(o) && {
                &&& o.cpu.name@ == hw_info.cpu.model_name@
                &&& o.cpu.cores == hw_info.cpu.physical_cores
                &&& o.cpu.threads == hw_info.cpu.logical_cores
                &&& o.cpu.vendor@ == hw_info.cpu.vendor.spec_label()
                &&& o.cpu.ai_capable == spec_cpu_ai_capable(hw_info)
                &&& o.memory_mb == hw_info.memory.total_mb
                &&& (match o.gpu {
                    Option::Some(g) => hw_info.gpus@.len() > 0 && g.name@
                        == hw_info.gpus@[0].model_name@ && g.vram_mb == hw_info.gpus@[0].memory_mb
                        && g.vendor@ == hw_info.gpus@[0].vendor.spec_label() && g.ai_capable
                        == spec_gpu_ai_capable(&hw_info.gpus@[0]),
                    Option::None => hw_info.gpus@.len() == 0,
                })
                &&& (hw_info.storage_devices@.len() == 0 ==> o.storage.total_mb == 0
                    && o.storage.available_mb == 0 && o.storage.drive_type@ == "Unknown"@
                    && o.storage.health@ == "Unknown"@)
                &&& (hw_info.storage_devices@.len() > 0 ==> o.storage.total_mb
                    == storage_total_upto(
                    hw_info.storage_devices@,
                    hw_info.storage_devices@.len() as int,
                ) && o.storage.available_mb == storage_available_upto(
                    hw_info.storage_devices@,
                    hw_info.storage_devices@.len() as int,
                ) && o.storage.drive_type@ == hw_info.storage_devices@[0].storage_type.spec_label()
                    && o.storage.health@ == spec_storage_health(
                    o.storage.total_mb,
                    o.storage.available_mb,
                ))
                &&& o.health.temperature == spec_temperature_status(hw_info)
                &&& o.health.power == spec_power_status(hw_info)
                &&& strings_view(o.health.warnings@) == spec_health_warnings(hw_info)
                &&& o.health.status == spec_overall_health(
                    spec_temperature_status(hw_info),
                    spec_power_status(hw_info),
                    spec_health_warnings(hw_info).len() as int,
                )
                &&& o.environment@ == hw_info.virtualization.environment_type.spec_label()
                &&& o.performance_score == spec_performance_score(hw_info)
            },
    {
        let cpu = SimpleCPU {
            name: String::from_str(hw_info.cpu.model_name()),
            cores: hw_info.cpu.physical_cores(),
            threads: hw_info.cpu.logical_cores(),
            vendor: hw_info.cpu.vendor().label(),
            ai_capable: Self::check_cpu_ai_capabilities(hw_info),
        };
        let memory_mb = hw_info.memory.total_mb();
        let gpu: Option<SimpleGPU> = if hw_info.gpus.len() > 0 {
            let primary = &hw_info.gpus[0];
            Option::Some(
                SimpleGPU {
                    name: String::from_str(primary.model_name()),
                    vram_mb: primary.memory_mb(),
                    vendor: primary.vendor().label(),
                    ai_capable: Self::check_gpu_ai_capabilities(primary),
                },
            )
        } else {
            Option::None
        };
        let storage = Self::calculate_storage_summary(hw_info);
        let health = Self::assess_system_health(hw_info);
        let environment = hw_info.virtualization.environment_type.label();
        let performance_score = Self::calculate_performance_score(hw_info);
        Ok(
            SystemOverview {
                cpu,
                memory_mb,
                gpu,
                storage,
                health,
                environment,
                performance_score,
            },
        )
    }

    /// Is the system suitable for AI/ML workloads: an AI-capable CPU or
    /// GPU, or at least 8 GB of memory?
    pub fn is_ai_ready(&self) -> (r: bool)
        ensures
            r == (self.cpu.ai_capable || (self.gpu matches Option::Some(g) && g.ai_capable)
                || self.memory_mb >= 8192),
    {
        self.cpu.ai_capable || (match &self.gpu {
            Option::Some(g) => g.ai_capable,
            Option::None => false,
        }) || self.memory_mb >= 8192
    }

    /// AI/ML suitability score, 0 to 100: GPU contributes up to 45, CPU
    /// up to 25, memory up to 25.
    pub fn ai_score(&self) -> (r: u8)
        ensures
            r == spec_ai_score(self),
    {
        let mut score: u64 = 0;
        match &self.gpu {
            Option::Some(g) => {
                if g.ai_capable {
                    score += 30;
                    if g.vram_mb >= 8192 {
                        score += 15;
                    } else if g.vram_mb >= 4096 {
                        score += 10;
                    } else {
                        score += 5;
                    }
                }
            },
            Option::None => {},
        }
        if self.cpu.ai_capable {
            score += 15;
        }
        if self.cpu.cores >= 8 {
            score += 10;
        } else if self.cpu.cores >= 4 {
            score += 5;
        }
        if self.memory_mb >= 32768 {
            score += 25;
        } else if self.memory_mb >= 16384 {
            score += 20;
        } else if self.memory_mb >= 8192 {
            score += 15;
        } else {
            score += 5;
        }
        if score > 100 {
            100
        } else {
            score as u8
        }
    }

    /// Simple recommendations for improving the system, followed by the
    /// health warnings.
    pub fn get_recommendations(&self) -> (r: Vec<String>)
        ensures
            strings_view(r@) == spec_recommendations(self),
    {
        let mut recommendations: Vec<String> = Vec::new();
        if self.memory_mb < 16384 {
            recommendations.push(
                String::from_str("Consider upgrading to 16GB+ RAM for better performance"),
            );
        }
        match &self.gpu {
            Option::None => {
                recommendations.push(String::from_str("Add a dedicated GPU for AI/ML acceleration"));
            },
            Option::Some(g) => {
                if g.vram_mb < 4096 {
                    recommendations.push(
                        String::from_str("Consider a GPU with more VRAM for large AI models"),
                    );
                }
            },
        }
        if strutil::contains_ignore_case(self.storage.drive_type.as_str(), "hdd") {
            recommendations.push(String::from_str("Upgrade to SSD for faster data access"));
        }
        let ghost before = strings_view(recommendations@);
        let n = self.health.warnings.len();
        let mut i: usize = 0;
        while i < n
            invariant
                n == self.health.warnings@.len(),
                i <= n,
                strings_view(recommendations@) == before + strings_view(
                    self.health.warnings@,
                ).subrange(0, i as int),
            decreases n - i,
        {
            let w = self.health.warnings[i].clone();
            let ghost pre = recommendations@;
            recommendations.push(w);
            proof {
                assert(strings_view(recommendations@) =~= strings_view(pre).push(
                    self.health.warnings@[i as int]@,
                ));
                assert(strings_view(self.health.warnings@).subrange(0, i as int + 1)
                    =~= strings_view(self.health.warnings@).subrange(0, i as int).push(
                    self.health.warnings@[i as int]@,
                ));
                assert(strings_view(recommendations@) =~= before + strings_view(
                    self.health.warnings@,
                ).subrange(0, i as int + 1));
            }
            i += 1;
        }
        proof {
            assert(strings_view(self.health.warnings@).subrange(0, n as int) =~= strings_view(
                self.health.warnings@,
            ));
            assert(strings_view(recommendations@) =~= spec_recommendations(self));
        }
        recommendations
    }
}

/// The AI score owed to an overview.
pub open spec fn spec_ai_score(o: &SystemOverview) -> int {
    let gpu_part = match o.gpu {
        Option::Some(g) => if g.ai_capable {
            30 + if g.vram_mb >= 8192 {
                15int
            } else if g.vram_mb >= 4096 {
                10int
            } else {
                5int
            }
        } else {
            0int
        },
        Option::None => 0int,
    };
    let cpu_part = (if o.cpu.ai_capable {
        15int
    } else {
        0int
    }) + (if o.cpu.cores >= 8 {
        10int
    } else if o.cpu.cores >= 4 {
        5int
    } else {
        0int
    });
    let memory_part = if o.memory_mb >= 32768 {
        25int
    } else if o.memory_mb >= 16384 {
        20int
    } else if o.memory_mb >= 8192 {
        15int
    } else {
        5int
    };
    let total = gpu_part + cpu_part + memory_part;
    if total > 100 {
        100int
    } else {
        total
    }
}

/// The recommendation texts owed to an overview: memory, GPU and storage
/// upgrades where warranted, then the health warnings.
pub open spec fn spec_recommendations(o: &SystemOverview) -> Seq<Seq<char>> {
    (if o.memory_mb < 16384 {
        seq!["Consider upgrading to 16GB+ RAM for better performance"@]
    } else {
        Seq::empty()
    }) + (match o.gpu {
        Option::None => seq!["Add a dedicated GPU for AI/ML acceleration"@],
        Option::Some(g) => if g.vram_mb < 4096 {
            seq!["Consider a GPU with more VRAM for large AI models"@]
        } else {
            Seq::empty()
        },
    }) + (if contains_ci(o.storage.drive_type@, "hdd"@) {
        seq!["Upgrade to SSD for faster data access"@]
    } else {
        Seq::empty()
    }) + strings_view(o.health.warnings@)
}

} // verus!
