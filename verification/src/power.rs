//! Power profile description: draw, state, and optimization metadata.
//!
//! Power quantities are centiwatts so the thresholds of the monitoring
//! engine compare exactly.

use vstd::prelude::*;
use vstd::string::StringExecFns;

verus! {

/// Risk level for thermal throttling
#[derive(Debug, Clone, Copy, PartialEq, Eq, Structural)]
pub enum ThrottlingRisk {
    /// No risk of throttling
    NoRisk,
    /// Low risk of throttling under sustained load
    Low,
    /// Moderate risk, throttling may occur
    Moderate,
    /// High risk, throttling likely
    High,
    /// Critical, throttling is occurring
    Critical,
}

/// Current system power state
#[derive(Debug, PartialEq, Eq)]
pub enum PowerState {
    /// Maximum performance mode
    HighPerformance,
    /// Balanced mode
    Balanced,
    /// Power saving mode
    PowerSaver,
    /// Battery optimization mode
    BatteryOptimized,
    /// Custom power profile
    Custom(String),
    /// Unknown state
    Unknown,
}

impl Clone for PowerState {
    fn clone(&self) -> (r: Self)
        ensures
            r == *self,
    {
        match self {
            PowerState::HighPerformance => PowerState::HighPerformance,
            PowerState::Balanced => PowerState::Balanced,
            PowerState::PowerSaver => PowerState::PowerSaver,
            PowerState::BatteryOptimized => PowerState::BatteryOptimized,
            PowerState::Custom(name) => PowerState::Custom(name.clone()),
            PowerState::Unknown => PowerState::Unknown,
        }
    }
}

/// One available power management mode.
#[derive(Debug)]
pub struct PowerMode {
    /// Mode name
    pub name: String,
    /// Mode description
    pub description: String,
    /// Is this mode currently active
    pub is_active: bool,
    /// Expected power savings in whole percent
    pub power_savings_percent: Option<u32>,
    /// Expected performance impact in whole percent
    pub performance_impact_percent: Option<u32>,
}

/// Field-by-field equality of two power modes, over views.
pub open spec fn power_mode_eq(a: PowerMode, b: PowerMode) -> bool {
    &&& a.name@ == b.name@
    &&& a.description@ == b.description@
    &&& a.is_active == b.is_active
    &&& a.power_savings_percent == b.power_savings_percent
    &&& a.performance_impact_percent == b.performance_impact_percent
}

/// Pointwise `power_mode_eq` over two sequences of power modes.
pub open spec fn power_modes_eq(a: Seq<PowerMode>, b: Seq<PowerMode>) -> bool {
    a.len() == b.len() && forall|i: int| 0 <= i < a.len() ==> power_mode_eq(#[trigger] a[i], b[i])
}

impl Clone for PowerMode {
    fn clone(&self) -> (r: Self)
        ensures
            power_mode_eq(r, *self),
    {
        PowerMode {
            name: self.name.clone(),
            description: self.description.clone(),
            is_active: self.is_active,
            power_savings_percent: self.power_savings_percent,
            performance_impact_percent: self.performance_impact_percent,
        }
    }
}

/// Category of power optimization
#[derive(Debug, Clone, Copy, PartialEq, Eq, Structural)]
pub enum OptimizationCategory {
    /// CPU frequency scaling
    CPUScaling,
    /// GPU power limiting
    GPUPowerLimit,
    /// Display brightness
    DisplayBrightness,
    /// Background processes
    BackgroundProcesses,
    /// Network interfaces
    NetworkInterfaces,
    /// Storage devices
    StorageDevices,
    /// Thermal management
    ThermalManagement,
    /// System settings
    SystemSettings,
}

/// Priority level for optimizations
#[derive(Debug, Clone, Copy, PartialEq, Eq, Structural)]
pub enum OptimizationPriority {
    /// Low impact, minor savings
    Low,
    /// Medium impact, moderate savings
    Medium,
    /// High impact, significant savings
    High,
    /// Critical for system stability
    Critical,
}

/// Power optimization recommendation.
#[derive(Debug)]
pub struct PowerOptimization {
    /// Recommendation category
    pub category: OptimizationCategory,
    /// Human-readable recommendation
    pub recommendation: String,
    /// Expected power savings in centiwatts (if known)
    pub expected_savings_centiw: Option<u64>,
    /// Expected performance kept, in whole percent (100 is no impact)
    pub performance_kept_percent: u32,
    /// Priority level of this optimization
    pub priority: OptimizationPriority,
}

/// Field-by-field equality of two optimization recommendations, over views.
pub open spec fn power_optimization_eq(a: &PowerOptimization, b: &PowerOptimization) -> bool {
    &&& a.category == b.category
    &&& a.recommendation@ == b.recommendation@
    &&& a.expected_savings_centiw == b.expected_savings_centiw
    &&& a.performance_kept_percent == b.performance_kept_percent
    &&& a.priority == b.priority
}

impl Clone for PowerOptimization {
    fn clone(&self) -> (r: Self)
        ensures
            power_optimization_eq(&r, self),
    {
        PowerOptimization {
            category: self.category,
            recommendation: self.recommendation.clone(),
            expected_savings_centiw: self.expected_savings_centiw,
            performance_kept_percent: self.performance_kept_percent,
            priority: self.priority,
        }
    }
}

/// System power profile.
#[derive(Debug)]
pub struct PowerProfile {
    /// Total system power draw in centiwatts (if known)
    pub total_power_draw_centiw: Option<u64>,
    /// CPU power consumption in centiwatts (if known)
    pub cpu_power_centiw: Option<u64>,
    /// GPU power consumption in centiwatts (if known)
    pub gpu_power_centiw: Option<u64>,
    /// Performance per watt efficiency in whole percent
    pub efficiency_percent: u32,
    /// Risk level of thermal throttling
    pub thermal_throttling_risk: ThrottlingRisk,
    /// Current power management state
    pub power_state: PowerState,
    /// Available power saving modes
    pub available_power_modes: Vec<PowerMode>,
}

/// Field-by-field equality of two power profiles, over views.
pub open spec fn power_eq(a: &PowerProfile, b: &PowerProfile) -> bool {
    &&& a.total_power_draw_centiw == b.total_power_draw_centiw
    &&& a.cpu_power_centiw == b.cpu_power_centiw
    &&& a.gpu_power_centiw == b.gpu_power_centiw
    &&& a.efficiency_percent == b.efficiency_percent
    &&& a.thermal_throttling_risk == b.thermal_throttling_risk
    &&& a.power_state == b.power_state
    &&& power_modes_eq(a.available_power_modes@, b.available_power_modes@)
}

impl Clone for PowerProfile {
    fn clone(&self) -> (r: Self)
        ensures
            power_eq(&r, self),
    {
        let modes = self.available_power_modes.clone();
        proof {
            assert forall|i: int| 0 <= i < modes@.len() implies power_mode_eq(
                #[trigger] modes@[i],
                self.available_power_modes@[i],
            ) by {
                assert(cloned::<PowerMode>(self.available_power_modes@[i], modes@[i]));
            }
        }
        PowerProfile {
            total_power_draw_centiw: self.total_power_draw_centiw,
            cpu_power_centiw: self.cpu_power_centiw,
            gpu_power_centiw: self.gpu_power_centiw,
            efficiency_percent: self.efficiency_percent,
            thermal_throttling_risk: self.thermal_throttling_risk,
            power_state: self.power_state.clone(),
            available_power_modes: modes,
        }
    }
}

impl PowerProfile {
    /// Get total power draw in centiwatts, if known.
    pub fn total_power_draw_centiw(&self) -> (r: Option<u64>)
        ensures
            r == self.total_power_draw_centiw,
    {
        self.total_power_draw_centiw
    }

    /// Get the current power state.
    pub fn power_state(&self) -> (r: &PowerState)
        ensures
            r == &self.power_state,
    {
        &self.power_state
    }

    /// Get the throttling risk.
    pub fn thermal_throttling_risk(&self) -> (r: &ThrottlingRisk)
        ensures
            r == &self.thermal_throttling_risk,
    {
        &self.thermal_throttling_risk
    }
}

/// Abstract content of one power optimization, for specification.
pub struct PowerOptView {
    /// Recommendation category
    pub category: OptimizationCategory,
    /// Recommendation text
    pub recommendation: Seq<char>,
    /// Expected savings in centiwatts
    pub savings_centiw: Option<u64>,
    /// Performance kept, in whole percent
    pub kept_percent: u32,
    /// Priority level
    pub priority: OptimizationPriority,
}

/// The abstract content of a power optimization value.
pub open spec fn power_opt_view(o: PowerOptimization) -> PowerOptView {
    PowerOptView {
        category: o.category,
        recommendation: o.recommendation@,
        savings_centiw: o.expected_savings_centiw,
        kept_percent: o.performance_kept_percent,
        priority: o.priority,
    }
}

/// The power optimizations owed to a profile: CPU scaling above 50 W of
/// CPU draw (a fifth of it to save), a GPU power limit above 100 W of GPU
/// draw (15 percent to save), and thermal management at moderate or
/// higher throttling risk.
pub open spec fn spec_power_optimizations(p: &PowerProfile) -> Seq<PowerOptView> {
    (match p.cpu_power_centiw {
        Option::Some(cpu) => if cpu > 5000 {
            seq![
                PowerOptView {
                    category: OptimizationCategory::CPUScaling,
                    recommendation:
                        "Consider reducing CPU frequency or enabling power saving mode"@,
                    savings_centiw: Option::Some((cpu / 5) as u64),
                    kept_percent: 85u32,
                    priority: OptimizationPriority::Medium,
                },
            ]
        } else {
            Seq::empty()
        },
        Option::None => Seq::empty(),
    }) + (match p.gpu_power_centiw {
        Option::Some(gpu) => if gpu > 10000 {
            seq![
                PowerOptView {
                    category: OptimizationCategory::GPUPowerLimit,
                    recommendation:
                        "GPU power consumption is high. Consider lowering power limit or reducing graphics settings"@,
                    savings_centiw: Option::Some((gpu * 15 / 100) as u64),
                    kept_percent: 90u32,
                    priority: OptimizationPriority::Medium,
                },
            ]
        } else {
            Seq::empty()
        },
        Option::None => Seq::empty(),
    }) + (if p.thermal_throttling_risk == ThrottlingRisk::High || p.thermal_throttling_risk
        == ThrottlingRisk::Critical {
        seq![
            PowerOptView {
                category: OptimizationCategory::ThermalManagement,
                recommendation:
                    "High thermal throttling risk detected. Reduce workload or improve cooling"@,
                savings_centiw: Option::<u64>::None,
                kept_percent: 100u32,
                priority: OptimizationPriority::Critical,
            },
        ]
    } else if p.thermal_throttling_risk == ThrottlingRisk::Moderate {
        seq![
            PowerOptView {
                category: OptimizationCategory::ThermalManagement,
                recommendation:
                    "Consider improving system cooling or reducing sustained workloads"@,
                savings_centiw: Option::<u64>::None,
                kept_percent: 95u32,
                priority: OptimizationPriority::Medium,
            },
        ]
    } else {
        Seq::empty()
    })
}

impl PowerProfile {
    /// Power-saving recommendations for this profile, in the order given
    /// by `spec_power_optimizations`.
    pub fn suggest_power_optimizations(&self) -> (r: Vec<PowerOptimization>)
        ensures
            r@.map_values(|o: PowerOptimization| power_opt_view(o))
                == spec_power_optimizations(self),
    {
        let mut optimizations: Vec<PowerOptimization> = Vec::new();

        match self.cpu_power_centiw {
            Option::Some(cpu_power) => {
                if cpu_power > 5000 {
                    optimizations.push(
                        PowerOptimization {
                            category: OptimizationCategory::CPUScaling,
                            recommendation: String::from_str(
                                "Consider reducing CPU frequency or enabling power saving mode",
                            ),
                            expected_savings_centiw: Option::Some(cpu_power / 5),
                            performance_kept_percent: 85,
                            priority: OptimizationPriority::Medium,
                        },
                    );
                }
            },
            Option::None => {},
        }

        match self.gpu_power_centiw {
            Option::Some(gpu_power) => {
                if gpu_power > 10000 {
                    let savings: u64 = ((gpu_power as u128) * 15 / 100) as u64;
                    optimizations.push(
                        PowerOptimization {
                            category: OptimizationCategory::GPUPowerLimit,
                            recommendation: String::from_str(
                                "GPU power consumption is high. Consider lowering power limit or reducing graphics settings",
                            ),
                            expected_savings_centiw: Option::Some(savings),
                            performance_kept_percent: 90,
                            priority: OptimizationPriority::Medium,
                        },
                    );
                }
            },
            Option::None => {},
        }

        match self.thermal_throttling_risk {
            ThrottlingRisk::High | ThrottlingRisk::Critical => {
                optimizations.push(
                    PowerOptimization {
                        category: OptimizationCategory::ThermalManagement,
                        recommendation: String::from_str(
                            "High thermal throttling risk detected. Reduce workload or improve cooling",
                        ),
                        expected_savings_centiw: Option::None,
                        performance_kept_percent: 100,
                        priority: OptimizationPriority::Critical,
                    },
                );
            },
            ThrottlingRisk::Moderate => {
                optimizations.push(
                    PowerOptimization {
                        category: OptimizationCategory::ThermalManagement,
                        recommendation: String::from_str(
                            "Consider improving system cooling or reducing sustained workloads",
                        ),
                        expected_savings_centiw: Option::None,
                        performance_kept_percent: 95,
                        priority: OptimizationPriority::Medium,
                    },
                );
            },
            _ => {},
        }

        proof {
            assert(optimizations@.map_values(|o: PowerOptimization| power_opt_view(o))
                =~= spec_power_optimizations(self));
        }
        optimizations
    }
}

} // verus!
