//! Thermal state: sensors with bounded reading histories, fans, status
//! classification, trend estimation, and throttling prediction.
//!
//! Temperatures are hundredths of a degree Celsius.  Each sensor keeps a
//! bounded history of its most recent readings (capacity 10, oldest
//! evicted first); the trend estimator and the throttling predictor are
//! computed from those histories exactly as specified here.

use vstd::prelude::*;
use vstd::string::StringExecFns;

use crate::num;
use crate::num::trunc_div;
use crate::strutil;
use crate::strutil::contains_ci;

verus! {

/// One temperature reading with its timestamp (milliseconds).
#[derive(Debug, Clone, Copy, PartialEq, Eq, Structural)]
pub struct TemperatureReading {
    /// Temperature in hundredths of a degree Celsius
    pub temperature_centi: i32,
    /// Timestamp of the reading in milliseconds
    pub timestamp_ms: u64,
}

/// A sensor's history after one more reading: the reading is appended and,
/// if the history would exceed 10 entries, the oldest entry is dropped.
pub open spec fn push_capped(h: Seq<TemperatureReading>, r: TemperatureReading) -> Seq<
    TemperatureReading,
> {
    if h.len() + 1 > 10 {
        h.push(r).drop_first()
    } else {
        h.push(r)
    }
}

/// Thermal sensor information.
#[derive(Debug)]
pub struct ThermalSensor {
    /// Sensor name
    pub name: String,
    /// Current temperature in hundredths of a degree Celsius
    pub temperature_centi: i32,
    /// Critical temperature threshold (hundredths of a degree)
    pub critical_temperature_centi: Option<i32>,
    /// Maximum recorded temperature (hundredths of a degree)
    pub max_temperature_centi: Option<i32>,
    /// Sensor type (CPU, GPU, System, etc.)
    pub sensor_type: String,
    /// Historical temperature readings, newest appended last (at most 10)
    pub temperature_history: Vec<TemperatureReading>,
}

/// Field-by-field equality of two sensors, over views.
pub open spec fn sensor_eq(a: ThermalSensor, b: ThermalSensor) -> bool {
    &&& a.name@ == b.name@
    &&& a.temperature_centi == b.temperature_centi
    &&& a.critical_temperature_centi == b.critical_temperature_centi
    &&& a.max_temperature_centi == b.max_temperature_centi
    &&& a.sensor_type@ == b.sensor_type@
    &&& a.temperature_history@ == b.temperature_history@
}

/// Pointwise `sensor_eq` over two sequences of sensors.
pub open spec fn sensors_eq(a: Seq<ThermalSensor>, b: Seq<ThermalSensor>) -> bool {
    a.len() == b.len() && forall|i: int| 0 <= i < a.len() ==> sensor_eq(#[trigger] a[i], b[i])
}

impl Clone for ThermalSensor {
    fn clone(&self) -> (r: Self)
        ensures
            sensor_eq(r, *self),
    {
        let r = ThermalSensor {
            name: self.name.clone(),
            temperature_centi: self.temperature_centi,
            critical_temperature_centi: self.critical_temperature_centi,
            max_temperature_centi: self.max_temperature_centi,
            sensor_type: self.sensor_type.clone(),
            temperature_history: self.temperature_history.clone(),
        };
        proof {
            assert(r.temperature_history@ =~= self.temperature_history@);
        }
        r
    }
}

/// Single point on a fan curve.
#[derive(Debug, Clone, Copy, PartialEq, Eq, Structural)]
pub struct CurvePoint {
    /// Temperature in hundredths of a degree Celsius
    pub temperature_centi: i32,
    /// Fan speed in whole percent
    pub speed_percent: u32,
}

/// Fan curve configuration.
#[derive(Debug)]
pub struct FanCurve {
    /// Temperature to fan speed mappings
    pub curve_points: Vec<CurvePoint>,
    /// Hysteresis in hundredths of a degree Celsius
    pub hysteresis_centi: i32,
    /// Minimum fan speed in whole percent
    pub min_speed_percent: u32,
    /// Maximum fan speed in whole percent
    pub max_speed_percent: u32,
}

/// Field-by-field equality of two fan curves, over views.
pub open spec fn curve_eq(a: FanCurve, b: FanCurve) -> bool {
    &&& a.curve_points@ == b.curve_points@
    &&& a.hysteresis_centi == b.hysteresis_centi
    &&& a.min_speed_percent == b.min_speed_percent
    &&& a.max_speed_percent == b.max_speed_percent
}

impl Clone for FanCurve {
    fn clone(&self) -> (r: Self)
        ensures
            curve_eq(r, *self),
    {
        let r = FanCurve {
            curve_points: self.curve_points.clone(),
            hysteresis_centi: self.hysteresis_centi,
            min_speed_percent: self.min_speed_percent,
            max_speed_percent: self.max_speed_percent,
        };
        proof {
            assert(r.curve_points@ =~= self.curve_points@);
        }
        r
    }
}

/// Fan information.
#[derive(Debug)]
pub struct FanInfo {
    /// Fan name
    pub name: String,
    /// Current fan speed in RPM
    pub speed_rpm: u32,
    /// Maximum fan speed in RPM
    pub max_speed_rpm: Option<u32>,
    /// Fan speed in whole percent (0-100)
    pub speed_percent: Option<u32>,
    /// Is fan controllable
    pub controllable: bool,
    /// Fan curve settings (if available)
    pub fan_curve: Option<FanCurve>,
}

/// Equality of two optional fan curves, over views.
pub open spec fn opt_curve_eq(a: Option<FanCurve>, b: Option<FanCurve>) -> bool {
    match (a, b) {
        (Option::None, Option::None) => true,
        (Option::Some(x), Option::Some(y)) => curve_eq(x, y),
        _ => false,
    }
}

/// Field-by-field equality of two fans, over views.
pub open spec fn fan_eq(a: FanInfo, b: FanInfo) -> bool {
    &&& a.name@ == b.name@
    &&& a.speed_rpm == b.speed_rpm
    &&& a.max_speed_rpm == b.max_speed_rpm
    &&& a.speed_percent == b.speed_percent
    &&& a.controllable == b.controllable
    &&& opt_curve_eq(a.fan_curve, b.fan_curve)
}

/// Pointwise `fan_eq` over two sequences of fans.
pub open spec fn fans_eq(a: Seq<FanInfo>, b: Seq<FanInfo>) -> bool {
    a.len() == b.len() && forall|i: int| 0 <= i < a.len() ==> fan_eq(#[trigger] a[i], b[i])
}

impl Clone for FanInfo {
    fn clone(&self) -> (r: Self)
        ensures
            fan_eq(r, *self),
    {
        let curve = match &self.fan_curve {
            Option::Some(c) => Option::Some(c.clone()),
            Option::None => Option::None,
        };
        FanInfo {
            name: self.name.clone(),
            speed_rpm: self.speed_rpm,
            max_speed_rpm: self.max_speed_rpm,
            speed_percent: self.speed_percent,
            controllable: self.controllable,
            fan_curve: curve,
        }
    }
}

/// Severity of predicted thermal throttling, ordered by increasing
/// projected performance loss.
#[derive(Debug, Clone, Copy, PartialEq, Eq, Structural)]
pub enum ThrottlingSeverity {
    /// No throttling
    NoThrottling,
    /// Light throttling (< 10% performance loss)
    Light,
    /// Moderate throttling (10-25% performance loss)
    Moderate,
    /// Heavy throttling (25-50% performance loss)
    Heavy,
    /// Severe throttling (> 50% performance loss)
    Severe,
}

impl ThrottlingSeverity {
    /// The text this severity renders as.
    pub open spec fn spec_label(&self) -> Seq<char> {
        match self {
            ThrottlingSeverity::NoThrottling => "None"@,
            ThrottlingSeverity::Light => "Light"@,
            ThrottlingSeverity::Moderate => "Moderate"@,
            ThrottlingSeverity::Heavy => "Heavy"@,
            ThrottlingSeverity::Severe => "Severe"@,
        }
    }

    /// Render the severity as text.
    pub fn label(&self) -> (r: String)
        ensures
            r@ == self.spec_label(),
    {
        match self {
            ThrottlingSeverity::NoThrottling => String::from_str("None"),
            ThrottlingSeverity::Light => String::from_str("Light"),
            ThrottlingSeverity::Moderate => String::from_str("Moderate"),
            ThrottlingSeverity::Heavy => String::from_str("Heavy"),
            ThrottlingSeverity::Severe => String::from_str("Severe"),
        }
    }
}

/// Thermal throttling prediction.
#[derive(Debug)]
pub struct ThrottlingPrediction {
    /// Will throttling occur
    pub will_throttle: bool,
    /// Seconds until throttling occurs (if predicted and heating)
    pub time_to_throttle_secs: Option<u64>,
    /// Predicted throttling severity
    pub severity: ThrottlingSeverity,
    /// Recommended actions to prevent throttling
    pub recommendations: Vec<String>,
    /// Confidence of the prediction in whole percent
    pub confidence_percent: u32,
}

/// Type of cooling recommendation
#[derive(Debug, Clone, Copy, PartialEq, Eq, Structural)]
pub enum CoolingRecommendationType {
    /// Fan curve optimization
    FanCurveOptimization,
    /// Thermal paste replacement
    ThermalPasteReplacement,
    /// Additional case fans
    AdditionalFans,
    /// CPU cooler upgrade
    CPUCoolerUpgrade,
    /// GPU cooling solution
    GPUCooling,
    /// Case ventilation improvement
    CaseVentilation,
    /// Undervolting components
    Undervolting,
    /// Workload adjustment
    WorkloadAdjustment,
    /// Environmental changes
    EnvironmentalChanges,
}

/// Implementation difficulty level
#[derive(Debug, Clone, Copy, PartialEq, Eq, Structural)]
pub enum ImplementationDifficulty {
    /// Easy to implement (software changes)
    Easy,
    /// Moderate difficulty (minor hardware changes)
    Moderate,
    /// Difficult (major hardware changes)
    Difficult,
    /// Expert level (professional installation recommended)
    Expert,
}

impl ImplementationDifficulty {
    /// The text this difficulty renders as.
    pub open spec fn spec_label(&self) -> Seq<char> {
        match self {
            ImplementationDifficulty::Easy => "Easy"@,
            ImplementationDifficulty::Moderate => "Moderate"@,
            ImplementationDifficulty::Difficult => "Difficult"@,
            ImplementationDifficulty::Expert => "Expert"@,
        }
    }

    /// Render the difficulty as text.
    pub fn label(&self) -> (r: String)
        ensures
            r@ == self.spec_label(),
    {
        match self {
            ImplementationDifficulty::Easy => String::from_str("Easy"),
            ImplementationDifficulty::Moderate => String::from_str("Moderate"),
            ImplementationDifficulty::Difficult => String::from_str("Difficult"),
            ImplementationDifficulty::Expert => String::from_str("Expert"),
        }
    }
}

/// Cost category for recommendations
#[derive(Debug, Clone, Copy, PartialEq, Eq, Structural)]
pub enum CostCategory {
    /// Free (software/settings changes)
    Free,
    /// Low cost
    Low,
    /// Medium cost
    Medium,
    /// High cost
    High,
}

impl CostCategory {
    /// The text this cost category renders as.
    pub open spec fn spec_label(&self) -> Seq<char> {
        match self {
            CostCategory::Free => "Free"@,
            CostCategory::Low => "Low cost"@,
            CostCategory::Medium => "Medium cost"@,
            CostCategory::High => "High cost"@,
        }
    }

    /// Render the cost category as text.
    pub fn label(&self) -> (r: String)
        ensures
            r@ == self.spec_label(),
    {
        match self {
            CostCategory::Free => String::from_str("Free"),
            CostCategory::Low => String::from_str("Low cost"),
            CostCategory::Medium => String::from_str("Medium cost"),
            CostCategory::High => String::from_str("High cost"),
        }
    }
}

/// Cooling optimization recommendation.
#[derive(Debug)]
pub struct CoolingRecommendation {
    /// Recommendation type
    pub recommendation_type: CoolingRecommendationType,
    /// Human-readable description
    pub description: String,
    /// Expected temperature reduction in hundredths of a degree Celsius
    pub expected_temp_reduction_centi: Option<i32>,
    /// Implementation difficulty
    pub difficulty: ImplementationDifficulty,
    /// Estimated cost category
    pub cost_category: CostCategory,
}

/// Thermal Design Power information.
#[derive(Debug, Clone, Copy, PartialEq, Eq, Structural)]
pub struct TDPInfo {
    /// CPU TDP in centiwatts
    pub cpu_tdp_centiw: Option<u64>,
    /// GPU TDP in centiwatts
    pub gpu_tdp_centiw: Option<u64>,
    /// System TDP in centiwatts
    pub system_tdp_centiw: Option<u64>,
    /// Current power consumption vs TDP, in whole percent
    pub power_ratio_percent: Option<u32>,
}

/// System thermal status
#[derive(Debug, Clone, Copy, PartialEq, Eq, Structural)]
pub enum ThermalStatus {
    Normal,
    Warm,
    Hot,
    Critical,
    Unknown,
}

impl ThermalStatus {
    /// The text this status renders as.
    pub open spec fn spec_label(&self) -> Seq<char> {
        match self {
            ThermalStatus::Normal => "Normal"@,
            ThermalStatus::Warm => "Warm"@,
            ThermalStatus::Hot => "Hot"@,
            ThermalStatus::Critical => "Critical"@,
            ThermalStatus::Unknown => "Unknown"@,
        }
    }

    /// Render the status as text.
    pub fn label(&self) -> (r: String)
        ensures
            r@ == self.spec_label(),
    {
        match self {
            ThermalStatus::Normal => String::from_str("Normal"),
            ThermalStatus::Warm => String::from_str("Warm"),
            ThermalStatus::Hot => String::from_str("Hot"),
            ThermalStatus::Critical => String::from_str("Critical"),
            ThermalStatus::Unknown => String::from_str("Unknown"),
        }
    }
}

/// System thermal information.
#[derive(Debug)]
pub struct ThermalInfo {
    /// Temperature sensors
    pub sensors: Vec<ThermalSensor>,
    /// System fans
    pub fans: Vec<FanInfo>,
    /// Overall system temperature status
    pub thermal_status: ThermalStatus,
    /// Ambient temperature in hundredths of a degree (if available)
    pub ambient_temperature_centi: Option<i32>,
    /// Thermal design power (TDP) information
    pub tdp_info: Option<TDPInfo>,
}

/// Field-by-field equality of two thermal snapshots, over views.
pub open spec fn thermal_eq(a: &ThermalInfo, b: &ThermalInfo) -> bool {
    &&& sensors_eq(a.sensors@, b.sensors@)
    &&& fans_eq(a.fans@, b.fans@)
    &&& a.thermal_status == b.thermal_status
    &&& a.ambient_temperature_centi == b.ambient_temperature_centi
    &&& a.tdp_info == b.tdp_info
}

impl Clone for ThermalInfo {
    fn clone(&self) -> (r: Self)
        ensures
            thermal_eq(&r, self),
    {
        let sensors = self.sensors.clone();
        let fans = self.fans.clone();
        proof {
            assert forall|i: int| 0 <= i < sensors@.len() implies sensor_eq(
                #[trigger] sensors@[i],
                self.sensors@[i],
            ) by {
                assert(cloned::<ThermalSensor>(self.sensors@[i], sensors@[i]));
            }
            assert forall|i: int| 0 <= i < fans@.len() implies fan_eq(
                #[trigger] fans@[i],
                self.fans@[i],
            ) by {
                assert(cloned::<FanInfo>(self.fans@[i], fans@[i]));
            }
        }
        ThermalInfo {
            sensors,
            fans,
            thermal_status: self.thermal_status,
            ambient_temperature_centi: self.ambient_temperature_centi,
            tdp_info: self.tdp_info,
        }
    }
}

/// Every sensor history holds at most 10 readings.
pub open spec fn histories_bounded(sensors: Seq<ThermalSensor>) -> bool {
    forall|i: int|
        0 <= i < sensors.len() ==> (#[trigger] sensors[i]).temperature_history@.len() <= 10
}

impl ThermalInfo {
    /// Is every sensor history within its capacity of 10 readings?
    pub open spec fn wf(&self) -> bool {
        histories_bounded(self.sensors@)
    }

    /// Get temperature sensors.
    pub fn sensors(&self) -> (r: &Vec<ThermalSensor>)
        ensures
            r == &self.sensors,
    {
        &self.sensors
    }

    /// Get system fans.
    pub fn fans(&self) -> (r: &Vec<FanInfo>)
        ensures
            r == &self.fans,
    {
        &self.fans
    }

    /// Get thermal status.
    pub fn thermal_status(&self) -> (r: &ThermalStatus)
        ensures
            r == &self.thermal_status,
    {
        &self.thermal_status
    }
}

/// Highest current temperature among the first `i` sensors, if any.
pub open spec fn max_temp_upto(s: Seq<ThermalSensor>, i: int) -> Option<i32>
    decreases i,
{
    if i <= 0 {
        Option::None
    } else {
        match max_temp_upto(s, i - 1) {
            Option::None => Option::Some(s[i - 1].temperature_centi),
            Option::Some(m) => Option::Some(
                if s[i - 1].temperature_centi > m {
                    s[i - 1].temperature_centi
                } else {
                    m
                },
            ),
        }
    }
}

/// Highest current temperature among all sensors, if any.
pub open spec fn spec_max_temperature(s: Seq<ThermalSensor>) -> Option<i32> {
    max_temp_upto(s, s.len() as int)
}

/// Sum of the current temperatures of the first `i` sensors.
pub open spec fn temp_sum_upto(s: Seq<ThermalSensor>, i: int) -> int
    decreases i,
{
    if i <= 0 {
        0
    } else {
        temp_sum_upto(s, i - 1) + s[i - 1].temperature_centi
    }
}

/// The sensor is at or above its critical threshold; sensors without a
/// threshold of their own use 90 degrees Celsius.
pub open spec fn sensor_is_critical(s: ThermalSensor) -> bool {
    match s.critical_temperature_centi {
        Option::Some(c) => s.temperature_centi >= c,
        Option::None => s.temperature_centi >= 9000,
    }
}

/// Current temperature of the first sensor at or past `i` whose type
/// mentions `kind` (ignoring ASCII case), if any.
pub open spec fn find_temp_from(s: Seq<ThermalSensor>, kind: Seq<char>, i: int) -> Option<i32>
    decreases s.len() - i,
{
    if i < 0 || i >= s.len() {
        Option::None
    } else if contains_ci(s[i].sensor_type@, kind) {
        Option::Some(s[i].temperature_centi)
    } else {
        find_temp_from(s, kind, i + 1)
    }
}

/// Highest current temperature among the first `i` sensors, counting from
/// zero, so never negative.
pub open spec fn max_temp_floor0_upto(s: Seq<ThermalSensor>, i: int) -> i32
    decreases i,
{
    if i <= 0 {
        0
    } else {
        let m = max_temp_floor0_upto(s, i - 1);
        if s[i - 1].temperature_centi > m {
            s[i - 1].temperature_centi
        } else {
            m
        }
    }
}

/// Status classification of a set of sensors: unknown when there are none,
/// otherwise bucketed by the highest temperature (at least zero) at 90, 80
/// and 70 degrees Celsius.
pub open spec fn spec_thermal_status(s: Seq<ThermalSensor>) -> ThermalStatus {
    if s.len() == 0 {
        ThermalStatus::Unknown
    } else {
        let m = max_temp_floor0_upto(s, s.len() as int);
        if m >= 9000 {
            ThermalStatus::Critical
        } else if m >= 8000 {
            ThermalStatus::Hot
        } else if m >= 7000 {
            ThermalStatus::Warm
        } else {
            ThermalStatus::Normal
        }
    }
}

/// Two-step slope estimate of one sensor: half the difference between its
/// newest reading and the reading two places earlier.
pub open spec fn sensor_slope(s: ThermalSensor) -> int
    recommends
        s.temperature_history@.len() >= 3,
{
    trunc_div(
        s.temperature_history@[s.temperature_history@.len() - 1].temperature_centi
            - s.temperature_history@[s.temperature_history@.len() - 3].temperature_centi,
        2,
    )
}

/// Sum of the slopes of the qualifying sensors (at least three readings)
/// among the first `i`.
pub open spec fn slope_sum_upto(s: Seq<ThermalSensor>, i: int) -> int
    decreases i,
{
    if i <= 0 {
        0
    } else {
        slope_sum_upto(s, i - 1) + if s[i - 1].temperature_history@.len() >= 3 {
            sensor_slope(s[i - 1])
        } else {
            0
        }
    }
}

/// How many of the first `i` sensors qualify for the trend (at least three
/// readings).
pub open spec fn slope_count_upto(s: Seq<ThermalSensor>, i: int) -> int
    decreases i,
{
    if i <= 0 {
        0
    } else {
        slope_count_upto(s, i - 1) + if s[i - 1].temperature_history@.len() >= 3 {
            1int
        } else {
            0int
        }
    }
}

/// Average slope across the qualifying sensors, zero when none qualifies
/// (hundredths of a degree Celsius per tick).
pub open spec fn spec_trend(s: Seq<ThermalSensor>) -> int {
    if slope_count_upto(s, s.len() as int) > 0 {
        trunc_div(slope_sum_upto(s, s.len() as int), slope_count_upto(s, s.len() as int))
    } else {
        0
    }
}

/// Projected maximum temperature: the current maximum (zero when there are
/// no sensors), plus ten times the workload intensity, plus the trend.
pub open spec fn spec_projected_max(s: Seq<ThermalSensor>, intensity_centi: u32) -> int {
    (match spec_max_temperature(s) {
        Option::Some(m) => m as int,
        Option::None => 0,
    }) + (intensity_centi as int) * 10 + spec_trend(s)
}

/// Severity bucket of a projected maximum temperature, with boundaries at
/// 80, 85, 90 and 95 degrees Celsius.
pub open spec fn spec_severity(projected: int) -> ThrottlingSeverity {
    if projected >= 9500 {
        ThrottlingSeverity::Severe
    } else if projected >= 9000 {
        ThrottlingSeverity::Heavy
    } else if projected >= 8500 {
        ThrottlingSeverity::Moderate
    } else if projected >= 8000 {
        ThrottlingSeverity::Light
    } else {
        ThrottlingSeverity::NoThrottling
    }
}

/// Seconds until the 90-degree threshold is reached at the given positive
/// trend, floored at zero.
pub open spec fn spec_time_to_throttle_secs(max_temp: int, trend: int) -> int
    recommends
        trend > 0,
{
    if 9000 - max_temp <= 0 {
        0
    } else {
        (9000 - max_temp) * 60 / trend
    }
}

/// First index at or past `i` of a sensor with the given name, or the
/// length when there is none.
pub open spec fn sensor_index_from(s: Seq<ThermalSensor>, name: Seq<char>, i: int) -> int
    decreases s.len() - i,
{
    if i < 0 || i >= s.len() {
        s.len() as int
    } else if s[i].name@ == name {
        i
    } else {
        sensor_index_from(s, name, i + 1)
    }
}

/// The updated sensor after recording one reading: same identity, current
/// temperature replaced, the reading appended to the history with the
/// oldest entry evicted past 10.
pub open spec fn sensor_recorded(
    old_s: ThermalSensor,
    new_s: ThermalSensor,
    temp: i32,
    ts: u64,
) -> bool {
    &&& new_s.name == old_s.name
    &&& new_s.sensor_type == old_s.sensor_type
    &&& new_s.critical_temperature_centi == old_s.critical_temperature_centi
    &&& new_s.max_temperature_centi == old_s.max_temperature_centi
    &&& new_s.temperature_centi == temp
    &&& new_s.temperature_history@ == push_capped(
        old_s.temperature_history@,
        TemperatureReading { temperature_centi: temp, timestamp_ms: ts },
    )
}

impl ThermalInfo {
    /// Highest current temperature across all sensors, if any.
    pub fn max_temperature(&self) -> (r: Option<i32>)
        ensures
            r == spec_max_temperature(self.sensors@),
    {
        let n = self.sensors.len();
        let mut best: Option<i32> = Option::None;
        let mut i: usize = 0;
        while i < n
            invariant
                n == self.sensors@.len(),
                i <= n,
                best == max_temp_upto(self.sensors@, i as int),
            decreases n - i,
        {
            let t = self.sensors[i].temperature_centi;
            best = match best {
                Option::None => Option::Some(t),
                Option::Some(m) => Option::Some(
                    if t > m {
                        t
                    } else {
                        m
                    },
                ),
            };
            i += 1;
        }
        best
    }

    /// Average current temperature across all sensors (rounded toward
    /// zero), if any.
    pub fn average_temperature(&self) -> (r: Option<i32>)
        ensures
            self.sensors@.len() == 0 ==> r is None,
            self.sensors@.len() > 0 ==> r == Option::Some(
                (trunc_div(
                    temp_sum_upto(self.sensors@, self.sensors@.len() as int),
                    self.sensors@.len() as int,
                )) as i32,
            ),
    {
        let n = self.sensors.len();
        if n == 0 {
            return Option::None;
        }
        let mut total: i128 = 0;
        let mut i: usize = 0;
        while i < n
            invariant
                n == self.sensors@.len(),
                i <= n,
                total == temp_sum_upto(self.sensors@, i as int),
                total <= (i as int) * 0x8000_0000,
                -total <= (i as int) * 0x8000_0000,
            decreases n - i,
        {
            let t = self.sensors[i].temperature_centi;
            total = total + t as i128;
            i += 1;
        }
        let avg: i128 = num::div_trunc(total, n as i128);
        proof {
            num::lemma_trunc_div_bounded(total as int, n as int, 0x8000_0000);
        }
        Option::Some(avg as i32)
    }

    /// Is any sensor at or above its critical threshold (90 degrees
    /// Celsius for sensors without one of their own)?
    pub fn has_critical_temperature(&self) -> (r: bool)
        ensures
            r == exists|i: int|
                0 <= i < self.sensors@.len() && sensor_is_critical(#[trigger] self.sensors@[i]),
    {
        let n = self.sensors.len();
        let mut i: usize = 0;
        while i < n
            invariant
                n == self.sensors@.len(),
                i <= n,
                forall|k: int| 0 <= k < i ==> !sensor_is_critical(#[trigger] self.sensors@[k]),
            decreases n - i,
        {
            let s = &self.sensors[i];
            let crit = match s.critical_temperature_centi {
                Option::Some(c) => s.temperature_centi >= c,
                Option::None => s.temperature_centi >= 9000,
            };
            if crit {
                return true;
            }
            i += 1;
        }
        false
    }

    /// Current temperature of the first sensor whose type mentions `cpu`
    /// (ignoring ASCII case), if any.
    pub fn cpu_temperature(&self) -> (r: Option<i32>)
        ensures
            r == find_temp_from(self.sensors@, "cpu"@, 0),
    {
        self.find_temperature_by_type("cpu")
    }

    /// Current temperature of the first sensor whose type mentions `gpu`
    /// (ignoring ASCII case), if any.
    pub fn gpu_temperature(&self) -> (r: Option<i32>)
        ensures
            r == find_temp_from(self.sensors@, "gpu"@, 0),
    {
        self.find_temperature_by_type("gpu")
    }

    /// Current temperature of the first sensor whose type mentions `kind`
    /// (ignoring ASCII case), if any.
    pub fn find_temperature_by_type(&self, kind: &str) -> (r: Option<i32>)
        ensures
            r == find_temp_from(self.sensors@, kind@, 0),
    {
        let n = self.sensors.len();
        let mut i: usize = 0;
        while i < n
            invariant
                n == self.sensors@.len(),
                i <= n,
                find_temp_from(self.sensors@, kind@, 0) == find_temp_from(
                    self.sensors@,
                    kind@,
                    i as int,
                ),
            decreases n - i,
        {
            let s = &self.sensors[i];
            if strutil::contains_ignore_case(s.sensor_type.as_str(), kind) {
                return Option::Some(s.temperature_centi);
            }
            i += 1;
        }
        Option::None
    }

    /// Classify sensors into an overall thermal status.
    pub fn calculate_thermal_status(sensors: &Vec<ThermalSensor>) -> (r: ThermalStatus)
        ensures
            r == spec_thermal_status(sensors@),
    {
        let n = sensors.len();
        if n == 0 {
            return ThermalStatus::Unknown;
        }
        let mut m: i32 = 0;
        let mut i: usize = 0;
        while i < n
            invariant
                n == sensors@.len(),
                i <= n,
                m == max_temp_floor0_upto(sensors@, i as int),
            decreases n - i,
        {
            let t = sensors[i].temperature_centi;
            if t > m {
                m = t;
            }
            i += 1;
        }
        if m >= 9000 {
            ThermalStatus::Critical
        } else if m >= 8000 {
            ThermalStatus::Hot
        } else if m >= 7000 {
            ThermalStatus::Warm
        } else {
            ThermalStatus::Normal
        }
    }

    /// Average temperature trend across all sensors with at least three
    /// recorded readings, in hundredths of a degree Celsius per tick; zero
    /// when no sensor qualifies.
    pub fn calculate_temperature_trend(&self) -> (r: i64)
        ensures
            r == spec_trend(self.sensors@),
    {
        let n = self.sensors.len();
        let mut total: i128 = 0;
        let mut count: u64 = 0;
        let mut i: usize = 0;
        while i < n
            invariant
                n == self.sensors@.len(),
                i <= n,
                total == slope_sum_upto(self.sensors@, i as int),
                count == slope_count_upto(self.sensors@, i as int),
                count <= i,
                total <= (count as int) * 0x8000_0000,
                -total <= (count as int) * 0x8000_0000,
            decreases n - i,
        {
            let h = &self.sensors[i].temperature_history;
            let hl = h.len();
            if hl >= 3 {
                let newest: i64 = h[hl - 1].temperature_centi as i64;
                let third: i64 = h[hl - 3].temperature_centi as i64;
                let diff: i128 = newest as i128 - third as i128;
                let slope: i128 = num::div_trunc(diff, 2);
                proof {
                    num::lemma_trunc_div_bounded(diff as int, 2, 0x1_0000_0000);
                    assert(sensor_slope(self.sensors@[i as int]) == slope);
                }
                total = total + slope;
                count = count + 1;
            }
            i += 1;
        }
        if count == 0 {
            0
        } else {
            let avg: i128 = num::div_trunc(total, count as i128);
            proof {
                num::lemma_trunc_div_bounded(total as int, count as int, 0x8000_0000);
            }
            avg as i64
        }
    }

    /// Predict thermal throttling from the current sensor state and a
    /// caller-supplied workload intensity in hundredths (100 stands for a
    /// full workload; the projection adds ten times the intensity).
    pub fn predict_thermal_throttling(&self, workload_intensity_centi: u32) -> (r:
        ThrottlingPrediction)
        ensures
            r.will_throttle == (spec_projected_max(self.sensors@, workload_intensity_centi)
                >= 9000),
            r.severity == spec_severity(
                spec_projected_max(self.sensors@, workload_intensity_centi),
            ),
            r.confidence_percent == if spec_trend(self.sensors@) > 200 || spec_trend(self.sensors@)
                < -200 {
                80u32
            } else {
                60u32
            },
            ({
                let maxt = match spec_max_temperature(self.sensors@) {
                    Option::Some(m) => m as int,
                    Option::None => 0,
                };
                let trend = spec_trend(self.sensors@);
                if r.will_throttle && trend > 0 {
                    r.time_to_throttle_secs == Option::Some(
                        spec_time_to_throttle_secs(maxt, trend) as u64,
                    )
                } else {
                    r.time_to_throttle_secs is None
                }
            }),
            r.recommendations.deep_view() == spec_throttle_recommendations(
                self.sensors@,
                spec_projected_max(self.sensors@, workload_intensity_centi) >= 9000,
            ),
    {
        let max_temp: i64 = match self.max_temperature() {
            Option::Some(m) => m as i64,
            Option::None => 0,
        };
        let cpu_temp: i64 = match self.cpu_temperature() {
            Option::Some(m) => m as i64,
            Option::None => 0,
        };
        let gpu_temp: i64 = match self.gpu_temperature() {
            Option::Some(m) => m as i64,
            Option::None => 0,
        };
        let trend: i64 = self.calculate_temperature_trend();
        let projected: i128 = max_temp as i128 + (workload_intensity_centi as i128) * 10
            + trend as i128;

        let will_throttle = projected >= 9000;
        let time_to_throttle_secs: Option<u64> = if will_throttle && trend > 0 {
            let diff: i128 = 9000 - max_temp as i128;
            if diff <= 0 {
                Option::Some(0u64)
            } else {
                let secs: i128 = (diff * 60) / (trend as i128);
                proof {
                    assert(diff * 60 <= 9000 * 60 + 0x8000_0000 * 60) by (nonlinear_arith)
                        requires
                            0 < diff <= 9000 + 0x8000_0000,
                    ;
                    assert(secs == (diff * 60) as int / (trend as int));
                    assert(0 <= secs <= diff * 60) by (nonlinear_arith)
                        requires
                            secs == (diff * 60) as int / (trend as int),
                            diff > 0,
                            trend >= 1,
                    ;
                }
                Option::Some(secs as u64)
            }
        } else {
            Option::None
        };

        let severity = if projected >= 9500 {
            ThrottlingSeverity::Severe
        } else if projected >= 9000 {
            ThrottlingSeverity::Heavy
        } else if projected >= 8500 {
            ThrottlingSeverity::Moderate
        } else if projected >= 8000 {
            ThrottlingSeverity::Light
        } else {
            ThrottlingSeverity::NoThrottling
        };

        let mut recommendations: Vec<String> = Vec::new();
        if will_throttle {
            recommendations.push(String::from_str("Reduce workload intensity"));
            recommendations.push(String::from_str("Increase fan speeds if possible"));
            if cpu_temp > gpu_temp {
                recommendations.push(String::from_str("Focus on CPU cooling optimization"));
            } else if gpu_temp > cpu_temp {
                recommendations.push(String::from_str("Focus on GPU cooling optimization"));
            }
        }
        proof {
            assert(recommendations.deep_view() =~= spec_throttle_recommendations(
                self.sensors@,
                projected >= 9000,
            ));
        }

        let confidence_percent: u32 = if trend > 200 || trend < -200 {
            80
        } else {
            60
        };

        ThrottlingPrediction {
            will_throttle,
            time_to_throttle_secs,
            severity,
            recommendations,
            confidence_percent,
        }
    }

    /// Record one reading for the sensor with the given name: the reading
    /// is appended to that sensor's history (oldest evicted past 10) and
    /// becomes its current temperature.  Without a sensor of that name the
    /// call changes nothing.
    pub fn update_sensor_history(&mut self, sensor_name: &str, temperature_centi: i32,
        timestamp_ms: u64)
        ensures
            ({
                let idx = sensor_index_from(old(self).sensors@, sensor_name@, 0);
                &&& final(self).fans@ == old(self).fans@
                &&& final(self).thermal_status == old(self).thermal_status
                &&& final(self).ambient_temperature_centi == old(self).ambient_temperature_centi
                &&& final(self).tdp_info == old(self).tdp_info
                &&& idx == old(self).sensors@.len() ==> final(self).sensors@ == old(self).sensors@
                &&& idx < old(self).sensors@.len() ==> {
                    &&& final(self).sensors@.len() == old(self).sensors@.len()
                    &&& final(self).sensors@ == old(self).sensors@.update(
                        idx,
                        final(self).sensors@[idx],
                    )
                    &&& sensor_recorded(
                        old(self).sensors@[idx],
                        final(self).sensors@[idx],
                        temperature_centi,
                        timestamp_ms,
                    )
                }
            }),
            old(self).wf() ==> final(self).wf(),
    {
        let n = self.sensors.len();
        let mut i: usize = 0;
        while i < n
            invariant
                *self == *old(self),
                n == self.sensors@.len(),
                i <= n,
                sensor_index_from(self.sensors@, sensor_name@, 0) == sensor_index_from(
                    self.sensors@,
                    sensor_name@,
                    i as int,
                ),
            decreases n - i,
        {
            if strutil::eq_str(self.sensors[i].name.as_str(), sensor_name) {
                let ghost old_sensors = self.sensors@;
                let reading = TemperatureReading { temperature_centi, timestamp_ms };
                let s = &mut self.sensors[i];
                s.temperature_history.push(reading);
                if s.temperature_history.len() > 10 {
                    s.temperature_history.remove(0);
                }
                s.temperature_centi = temperature_centi;
                proof {
                    assert(sensor_index_from(old_sensors, sensor_name@, i as int) == i);
                    assert(self.sensors@ =~= old_sensors.update(i as int, self.sensors@[i as int]));
                    assert(self.sensors@[i as int].temperature_history@ =~= push_capped(
                        old_sensors[i as int].temperature_history@,
                        reading,
                    ));
                    if old(self).wf() {
                        assert(old_sensors[i as int].temperature_history@.len() <= 10);
                        assert(self.sensors@[i as int].temperature_history@.len() <= 10);
                        assert forall|k: int| 0 <= k < self.sensors@.len() implies (
                        #[trigger] self.sensors@[k]).temperature_history@.len() <= 10 by {
                            if k != i as int {
                                assert(self.sensors@[k] == old_sensors[k]);
                            }
                        }
                    }
                }
                return ;
            }
            proof {
                assert(sensor_index_from(self.sensors@, sensor_name@, i as int)
                    == sensor_index_from(self.sensors@, sensor_name@, i as int + 1));
            }
            i += 1;
        }
        proof {
            assert(sensor_index_from(self.sensors@, sensor_name@, n as int)
                == self.sensors@.len());
            assert(self.sensors@ =~= old(self).sensors@);
        }
    }

    /// Sustained-performance capability under the current thermal state,
    /// in whole percent: 100 below 70 degrees Celsius, 95 below 80, 85
    /// below 90, and 70 from 90 up.
    pub fn calculate_sustained_performance(&self) -> (r: u32)
        ensures
            ({
                let maxt = match spec_max_temperature(self.sensors@) {
                    Option::Some(m) => m as int,
                    Option::None => 0,
                };
                r == if maxt < 7000 {
                    100int
                } else if maxt < 8000 {
                    95int
                } else if maxt < 9000 {
                    85int
                } else {
                    70int
                }
            }),
    {
        let max_temp: i32 = match self.max_temperature() {
            Option::Some(m) => m,
            Option::None => 0,
        };
        if max_temp < 7000 {
            100
        } else if max_temp < 8000 {
            95
        } else if max_temp < 9000 {
            85
        } else {
            70
        }
    }
}

/// Abstract content of one cooling recommendation, for specification.
pub struct CoolingRecView {
    /// Recommendation type
    pub rec_type: CoolingRecommendationType,
    /// Description text
    pub description: Seq<char>,
    /// Expected temperature reduction in hundredths of a degree
    pub reduction_centi: Option<i32>,
    /// Implementation difficulty
    pub difficulty: ImplementationDifficulty,
    /// Cost category
    pub cost: CostCategory,
}

/// The abstract content of a cooling recommendation value.
pub open spec fn cooling_view(c: CoolingRecommendation) -> CoolingRecView {
    CoolingRecView {
        rec_type: c.recommendation_type,
        description: c.description@,
        reduction_centi: c.expected_temp_reduction_centi,
        difficulty: c.difficulty,
        cost: c.cost_category,
    }
}

/// Sum of the reported speed percentages of the first `i` fans; fans that
/// report none contribute nothing.
pub open spec fn fan_speed_sum_upto(f: Seq<FanInfo>, i: int) -> int
    decreases i,
{
    if i <= 0 {
        0
    } else {
        fan_speed_sum_upto(f, i - 1) + match f[i - 1].speed_percent {
            Option::Some(p) => p as int,
            Option::None => 0,
        }
    }
}

/// Average reported fan speed in whole percent, dividing by the number of
/// fans (at least one, so no fans gives zero).
pub open spec fn spec_avg_fan_speed(f: Seq<FanInfo>) -> int {
    fan_speed_sum_upto(f, f.len() as int) / (if f.len() == 0 {
        1int
    } else {
        f.len() as int
    })
}

/// The cooling recommendations owed to a thermal state: fan-curve tuning
/// above 85 degrees Celsius and thermal paste above 90; extra case fans
/// when the fans already average above 80 percent; a CPU cooler upgrade
/// when the CPU sensor reads above 85 degrees; environmental changes when
/// the ambient temperature is above 30 degrees.
pub open spec fn spec_cooling_recommendations(t: &ThermalInfo) -> Seq<CoolingRecView> {
    let maxt = match spec_max_temperature(t.sensors@) {
        Option::Some(m) => m as int,
        Option::None => 0,
    };
    let hot = if maxt > 8500 {
        seq![
            CoolingRecView {
                rec_type: CoolingRecommendationType::FanCurveOptimization,
                description: "Optimize fan curves for better cooling efficiency"@,
                reduction_centi: Option::Some(300i32),
                difficulty: ImplementationDifficulty::Easy,
                cost: CostCategory::Free,
            },
        ] + if maxt > 9000 {
            seq![
                CoolingRecView {
                    rec_type: CoolingRecommendationType::ThermalPasteReplacement,
                    description: "Consider replacing thermal paste on CPU/GPU"@,
                    reduction_centi: Option::Some(500i32),
                    difficulty: ImplementationDifficulty::Moderate,
                    cost: CostCategory::Low,
                },
            ]
        } else {
            Seq::empty()
        }
    } else {
        Seq::empty()
    };
    let fans = if spec_avg_fan_speed(t.fans@) > 80 {
        seq![
            CoolingRecView {
                rec_type: CoolingRecommendationType::AdditionalFans,
                description:
                    "Current fans are running at high speeds. Consider adding more case fans"@,
                reduction_centi: Option::Some(400i32),
                difficulty: ImplementationDifficulty::Moderate,
                cost: CostCategory::Low,
            },
        ]
    } else {
        Seq::empty()
    };
    let cpu = match find_temp_from(t.sensors@, "cpu"@, 0) {
        Option::Some(c) => if c > 8500 {
            seq![
                CoolingRecView {
                    rec_type: CoolingRecommendationType::CPUCoolerUpgrade,
                    description: "CPU temperatures are high. Consider upgrading CPU cooler"@,
                    reduction_centi: Option::Some(800i32),
                    difficulty: ImplementationDifficulty::Moderate,
                    cost: CostCategory::Medium,
                },
            ]
        } else {
            Seq::empty()
        },
        Option::None => Seq::empty(),
    };
    let ambient = match t.ambient_temperature_centi {
        Option::Some(a) => if a > 3000 {
            seq![
                CoolingRecView {
                    rec_type: CoolingRecommendationType::EnvironmentalChanges,
                    description:
                        "High ambient temperature detected. Improve room ventilation or use air conditioning"@,
                    reduction_centi: Option::Some((a - 2500) as i32),
                    difficulty: ImplementationDifficulty::Easy,
                    cost: CostCategory::Free,
                },
            ]
        } else {
            Seq::empty()
        },
        Option::None => Seq::empty(),
    };
    hot + fans + cpu + ambient
}

impl ThermalInfo {
    /// Average reported fan speed in whole percent (zero without fans).
    pub fn average_fan_speed_percent(&self) -> (r: u64)
        ensures
            r == spec_avg_fan_speed(self.fans@),
    {
        let n = self.fans.len();
        let mut total: u128 = 0;
        let mut i: usize = 0;
        while i < n
            invariant
                n == self.fans@.len(),
                i <= n,
                total == fan_speed_sum_upto(self.fans@, i as int),
                total <= (i as int) * 0xFFFF_FFFF,
            decreases n - i,
        {
            match self.fans[i].speed_percent {
                Option::Some(p) => {
                    total = total + p as u128;
                },
                Option::None => {},
            }
            i += 1;
        }
        if n == 0 {
            0
        } else {
            let avg: u128 = total / (n as u128);
            proof {
                num::lemma_trunc_div_bounded(total as int, n as int, 0xFFFF_FFFF);
            }
            avg as u64
        }
    }

    /// Cooling recommendations for the current thermal state, in the order
    /// given by `spec_cooling_recommendations`.
    pub fn suggest_cooling_optimizations(&self) -> (r: Vec<CoolingRecommendation>)
        ensures
            r@.map_values(|c: CoolingRecommendation| cooling_view(c))
                == spec_cooling_recommendations(self),
    {
        let mut recs: Vec<CoolingRecommendation> = Vec::new();
        let max_temp: i32 = match self.max_temperature() {
            Option::Some(m) => m,
            Option::None => 0,
        };

        if max_temp > 8500 {
            recs.push(
                CoolingRecommendation {
                    recommendation_type: CoolingRecommendationType::FanCurveOptimization,
                    description: String::from_str(
                        "Optimize fan curves for better cooling efficiency",
                    ),
                    expected_temp_reduction_centi: Option::Some(300),
                    difficulty: ImplementationDifficulty::Easy,
                    cost_category: CostCategory::Free,
                },
            );
            if max_temp > 9000 {
                recs.push(
                    CoolingRecommendation {
                        recommendation_type: CoolingRecommendationType::ThermalPasteReplacement,
                        description: String::from_str(
                            "Consider replacing thermal paste on CPU/GPU",
                        ),
                        expected_temp_reduction_centi: Option::Some(500),
                        difficulty: ImplementationDifficulty::Moderate,
                        cost_category: CostCategory::Low,
                    },
                );
            }
        }

        let avg_fan_speed = self.average_fan_speed_percent();
        if avg_fan_speed > 80 {
            recs.push(
                CoolingRecommendation {
                    recommendation_type: CoolingRecommendationType::AdditionalFans,
                    description: String::from_str(
                        "Current fans are running at high speeds. Consider adding more case fans",
                    ),
                    expected_temp_reduction_centi: Option::Some(400),
                    difficulty: ImplementationDifficulty::Moderate,
                    cost_category: CostCategory::Low,
                },
            );
        }

        match self.cpu_temperature() {
            Option::Some(cpu_temp) => {
                if cpu_temp > 8500 {
                    recs.push(
                        CoolingRecommendation {
                            recommendation_type: CoolingRecommendationType::CPUCoolerUpgrade,
                            description: String::from_str(
                                "CPU temperatures are high. Consider upgrading CPU cooler",
                            ),
                            expected_temp_reduction_centi: Option::Some(800),
                            difficulty: ImplementationDifficulty::Moderate,
                            cost_category: CostCategory::Medium,
                        },
                    );
                }
            },
            Option::None => {},
        }

        match self.ambient_temperature_centi {
            Option::Some(ambient) => {
                if ambient > 3000 {
                    recs.push(
                        CoolingRecommendation {
                            recommendation_type: CoolingRecommendationType::EnvironmentalChanges,
                            description: String::from_str(
                                "High ambient temperature detected. Improve room ventilation or use air conditioning",
                            ),
                            expected_temp_reduction_centi: Option::Some(ambient - 2500),
                            difficulty: ImplementationDifficulty::Easy,
                            cost_category: CostCategory::Free,
                        },
                    );
                }
            },
            Option::None => {},
        }

        proof {
            assert(recs@.map_values(|c: CoolingRecommendation| cooling_view(c))
                =~= spec_cooling_recommendations(self));
        }
        recs
    }
}

/// The recommendation texts attached to a throttling prediction: empty
/// when no throttling is predicted; otherwise the two base suggestions,
/// plus a CPU- or GPU-specific one when one of those runs hotter.
pub open spec fn spec_throttle_recommendations(s: Seq<ThermalSensor>, will_throttle: bool) -> Seq<
    Seq<char>,
> {
    if !will_throttle {
        Seq::empty()
    } else {
        let cpu = match find_temp_from(s, "cpu"@, 0) {
            Option::Some(t) => t as int,
            Option::None => 0,
        };
        let gpu = match find_temp_from(s, "gpu"@, 0) {
            Option::Some(t) => t as int,
            Option::None => 0,
        };
        let base = seq!["Reduce workload intensity"@, "Increase fan speeds if possible"@];
        if cpu > gpu {
            base.push("Focus on CPU cooling optimization"@)
        } else if gpu > cpu {
            base.push("Focus on GPU cooling optimization"@)
        } else {
            base
        }
    }
}

/// The bounded history law: recording into a history of at most 10
/// readings keeps it at most 10; below the cap the reading is appended,
/// at the cap the oldest reading is the one evicted.
pub proof fn lemma_history_bounded(h: Seq<TemperatureReading>, r: TemperatureReading)
    requires
        h.len() <= 10,
    ensures
        push_capped(h, r).len() <= 10,
        h.len() < 10 ==> push_capped(h, r) == h.push(r),
        h.len() == 10 ==> push_capped(h, r) == h.drop_first().push(r),
{
    if h.len() == 10 {
        assert(h.push(r).drop_first() =~= h.drop_first().push(r));
    }
}

/// Prefix slope sums and counts ignore an element appended past the
/// prefix.
proof fn lemma_slope_prefix_push(s: Seq<ThermalSensor>, x: ThermalSensor, i: int)
    requires
        0 <= i <= s.len(),
    ensures
        slope_sum_upto(s.push(x), i) == slope_sum_upto(s, i),
        slope_count_upto(s.push(x), i) == slope_count_upto(s, i),
    decreases i,
{
    if i > 0 {
        lemma_slope_prefix_push(s, x, i - 1);
    }
}

/// The trend excludes sensors with fewer than three recorded readings:
/// adding such a sensor leaves the trend unchanged.
pub proof fn lemma_trend_ignores_short_history(s: Seq<ThermalSensor>, x: ThermalSensor)
    requires
        x.temperature_history@.len() < 3,
    ensures
        spec_trend(s.push(x)) == spec_trend(s),
{
    lemma_slope_prefix_push(s, x, s.len() as int);
    assert(s.push(x)[s.len() as int] == x);
    assert(slope_sum_upto(s.push(x), s.len() as int + 1) == slope_sum_upto(
        s.push(x),
        s.len() as int,
    ));
    assert(slope_count_upto(s.push(x), s.len() as int + 1) == slope_count_upto(
        s.push(x),
        s.len() as int,
    ));
}

} // verus!
