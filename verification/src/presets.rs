//! Domain-specific assessment presets: the data types of the AI, gaming,
//! developer and server assessments, and the pure estimates among them.

use vstd::prelude::*;

use crate::simple::SystemOverview;
use crate::strutil;

verus! {

/// Compatibility level of a framework or environment.
#[derive(Debug, Clone, Copy, PartialEq, Eq, Structural)]
pub enum CompatibilityLevel {
    Excellent,
    Good,
    Fair,
    Poor,
    Incompatible,
}

/// Expected performance level.
#[derive(Debug, Clone, Copy, PartialEq, Eq, Structural)]
pub enum PerformanceLevel {
    Excellent,
    Good,
    Fair,
    Poor,
    Inadequate,
}

/// Graphics quality level.
#[derive(Debug, Clone, Copy, PartialEq, Eq, Structural)]
pub enum QualityLevel {
    Ultra,
    High,
    Medium,
    Low,
    Minimum,
}

/// Assessment of one AI framework on this machine.
#[derive(Debug)]
pub struct AIFramework {
    /// Framework name
    pub name: String,
    /// Compatibility with the hardware
    pub compatibility: CompatibilityLevel,
    /// Expected performance
    pub performance_estimate: PerformanceLevel,
    /// Are the framework's requirements met?
    pub requirements_met: bool,
    /// Free-text notes
    pub notes: String,
}

/// Estimated AI performance by workload kind.
#[derive(Debug, Clone, Copy, PartialEq, Eq, Structural)]
pub struct AIPerformanceEstimate {
    /// Training workloads
    pub training_capability: PerformanceLevel,
    /// Inference workloads
    pub inference_capability: PerformanceLevel,
    /// Batch processing
    pub batch_processing: PerformanceLevel,
    /// Real-time processing
    pub real_time_processing: PerformanceLevel,
}

/// Recommended game settings.
#[derive(Debug)]
pub struct GameSettings {
    /// Display resolution
    pub resolution: String,
    /// Quality preset
    pub quality_preset: QualityLevel,
    /// Ray tracing supported
    pub raytracing_support: bool,
    /// Target frames per second
    pub target_fps: u32,
    /// Expected VRAM usage in whole percent
    pub vram_usage_percent: u8,
}

/// Suitability of one development environment.
#[derive(Debug)]
pub struct DevEnvironment {
    /// Environment name
    pub name: String,
    /// Suitability level
    pub suitability: CompatibilityLevel,
    /// Containers supported
    pub container_support: bool,
    /// Virtual machines supported
    pub vm_support: bool,
    /// Recommended configuration text
    pub recommended_config: String,
}

/// Virtualization capability summary.
#[derive(Debug, Clone, Copy, PartialEq, Eq, Structural)]
pub struct VirtualizationSupport {
    /// Hardware acceleration available
    pub hardware_acceleration: bool,
    /// Nested virtualization available
    pub nested_virtualization: bool,
    /// Maximum recommended concurrent VMs
    pub max_recommended_vms: u32,
    /// Expected Docker performance
    pub docker_performance: PerformanceLevel,
}

/// Suitability of one server workload.
#[derive(Debug)]
pub struct WorkloadSuitability {
    /// Workload kind
    pub workload_type: String,
    /// Suitability score, 0 to 100
    pub suitability_score: u8,
    /// Maximum concurrent users (if applicable)
    pub max_concurrent_users: Option<u32>,
    /// Free-text notes
    pub notes: String,
}

/// Hardware assessment presets for common use cases.
#[derive(Debug)]
pub struct HardwarePresets;

/// Base frame rate granted by the GPU: 120 from 8 GB of VRAM, 80 from
/// 4 GB, 30 below that, and 15 without a dedicated GPU.
pub open spec fn spec_base_fps(o: &SystemOverview) -> int {
    match o.gpu {
        Option::Some(g) => if g.vram_mb >= 8192 {
            120int
        } else if g.vram_mb >= 4096 {
            80int
        } else {
            30int
        },
        Option::None => 15int,
    }
}

/// Resolution modifier in tenths: 1080p keeps the base, 1440p scales by
/// 0.7, 4K by 0.4, and an unrecognised text keeps the base.
pub open spec fn spec_resolution_modifier_tenths(resolution: Seq<char>) -> int {
    if resolution == "1080p"@ {
        10int
    } else if resolution == "1440p"@ {
        7int
    } else if resolution == "4K"@ {
        4int
    } else {
        10int
    }
}

/// Quality modifier in tenths: low scales by 1.2, medium keeps the base,
/// high scales by 0.8, ultra by 0.6, and an unrecognised text keeps the
/// base.
pub open spec fn spec_quality_modifier_tenths(quality: Seq<char>) -> int {
    if quality == "Low"@ {
        12int
    } else if quality == "Medium"@ {
        10int
    } else if quality == "High"@ {
        8int
    } else if quality == "Ultra"@ {
        6int
    } else {
        10int
    }
}

/// Estimated frame rate: the base scaled by both modifiers, rounded down,
/// never below 15.
pub open spec fn spec_fps_estimate(
    o: &SystemOverview,
    resolution: Seq<char>,
    quality: Seq<char>,
) -> int {
    let raw = spec_base_fps(o) * spec_resolution_modifier_tenths(resolution)
        * spec_quality_modifier_tenths(quality) / 100;
    if raw < 15 {
        15int
    } else {
        raw
    }
}

impl HardwarePresets {
    /// Quick gaming frame-rate estimate for an overview at the given
    /// resolution (`1080p`, `1440p`, `4K`) and quality (`Low`, `Medium`,
    /// `High`, `Ultra`) settings.
    pub fn gaming_fps_estimate(overview: &SystemOverview, resolution: &str, quality: &str) -> (r:
        u32)
        ensures
            r == spec_fps_estimate(overview, resolution@, quality@),
    {
        let base_fps: u32 = match &overview.gpu {
            Option::Some(g) => {
                if g.vram_mb >= 8192 {
                    120
                } else if g.vram_mb >= 4096 {
                    80
                } else {
                    30
                }
            },
            Option::None => 15,
        };
        let resolution_modifier: u32 = if strutil::eq_str(resolution, "1080p") {
            10
        } else if strutil::eq_str(resolution, "1440p") {
            7
        } else if strutil::eq_str(resolution, "4K") {
            4
        } else {
            10
        };
        let quality_modifier: u32 = if strutil::eq_str(quality, "Low") {
            12
        } else if strutil::eq_str(quality, "Medium") {
            10
        } else if strutil::eq_str(quality, "High") {
            8
        } else if strutil::eq_str(quality, "Ultra") {
            6
        } else {
            10
        };
        proof {
            assert(base_fps * resolution_modifier * quality_modifier <= 14400) by (nonlinear_arith)
                requires
                    base_fps <= 120,
                    resolution_modifier <= 10,
                    quality_modifier <= 12,
            ;
        }
        let estimated: u32 = base_fps * resolution_modifier * quality_modifier / 100;
        if estimated < 15 {
            15
        } else {
            estimated
        }
    }
}

} // verus!
