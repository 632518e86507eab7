//! Thermal history, trend, and throttling-prediction behaviour.

use hardware_query::thermal::{
    CoolingRecommendationType, CostCategory, ImplementationDifficulty, TemperatureReading,
    ThermalInfo, ThermalSensor, ThermalStatus, ThrottlingSeverity,
};

fn sensor(name: &str, kind: &str, temp_centi: i32) -> ThermalSensor {
    ThermalSensor {
        name: name.to_string(),
        temperature_centi: temp_centi,
        critical_temperature_centi: None,
        max_temperature_centi: None,
        sensor_type: kind.to_string(),
        temperature_history: Vec::new(),
    }
}

fn thermal_with(sensors: Vec<ThermalSensor>) -> ThermalInfo {
    ThermalInfo {
        sensors,
        fans: Vec::new(),
        thermal_status: ThermalStatus::Unknown,
        ambient_temperature_centi: None,
        tdp_info: None,
    }
}

#[test]
fn history_is_bounded_and_fifo() {
    let mut info = thermal_with(vec![sensor("cpu0", "CPU", 5000)]);
    for k in 0..12 {
        info.update_sensor_history("cpu0", 6000 + k, 1000 + k as u64);
    }
    let hist = &info.sensors[0].temperature_history;
    assert_eq!(hist.len(), 10);
    // the first two readings (6000 and 6001) were evicted, oldest first
    assert_eq!(hist[0].temperature_centi, 6002);
    assert_eq!(hist[9].temperature_centi, 6011);
    // the current temperature tracks the newest reading
    assert_eq!(info.sensors[0].temperature_centi, 6011);
}

#[test]
fn record_unknown_sensor_changes_nothing() {
    let mut info = thermal_with(vec![sensor("cpu0", "CPU", 5000)]);
    info.update_sensor_history("gpu0", 9000, 1);
    assert_eq!(info.sensors[0].temperature_history.len(), 0);
    assert_eq!(info.sensors[0].temperature_centi, 5000);
}

#[test]
fn trend_needs_three_readings() {
    // one sensor with [70, 75, 80] degrees: trend = (80 - 70) / 2 = 5.0
    let mut info = thermal_with(vec![sensor("cpu0", "CPU", 7000), sensor("sys0", "System", 4000)]);
    info.update_sensor_history("cpu0", 7000, 1);
    info.update_sensor_history("cpu0", 7500, 2);
    info.update_sensor_history("cpu0", 8000, 3);
    // the second sensor has only two readings and must be excluded
    info.update_sensor_history("sys0", 1000, 1);
    info.update_sensor_history("sys0", 9000, 2);
    assert_eq!(info.calculate_temperature_trend(), 500);
}

#[test]
fn trend_without_qualifying_sensor_is_zero() {
    let mut info = thermal_with(vec![sensor("cpu0", "CPU", 7000)]);
    info.update_sensor_history("cpu0", 7000, 1);
    info.update_sensor_history("cpu0", 7500, 2);
    assert_eq!(info.calculate_temperature_trend(), 0);
}

#[test]
fn prediction_at_82_degrees_is_light_and_no_throttle() {
    // current max 82.0, intensity 0, trend 0 -> projected 82.0
    let info = thermal_with(vec![sensor("cpu0", "CPU", 8200)]);
    let p = info.predict_thermal_throttling(0);
    assert!(!p.will_throttle);
    assert_eq!(p.severity, ThrottlingSeverity::Light);
    assert_eq!(p.time_to_throttle_secs, None);
    assert!(p.recommendations.is_empty());
    assert_eq!(p.confidence_percent, 60);
}

#[test]
fn prediction_at_85_degrees_half_load_is_heavy_throttle() {
    // current max 85.0, intensity 0.5, trend 0 -> projected 85 + 5 = 90.0
    let info = thermal_with(vec![sensor("cpu0", "CPU", 8500)]);
    let p = info.predict_thermal_throttling(50);
    assert!(p.will_throttle);
    assert_eq!(p.severity, ThrottlingSeverity::Heavy);
    // trend is zero, so no time-to-throttle estimate
    assert_eq!(p.time_to_throttle_secs, None);
    // the CPU sensor reads hotter than the absent GPU reading
    assert_eq!(p.recommendations.len(), 3);
    assert_eq!(p.recommendations[0], "Reduce workload intensity");
    assert_eq!(p.recommendations[1], "Increase fan speeds if possible");
    assert_eq!(p.recommendations[2], "Focus on CPU cooling optimization");
}

#[test]
fn prediction_with_rising_trend_estimates_time() {
    // history [85, 87, 89]: slope = (8900 - 8500) / 2 = 200 centi/tick
    let mut info = thermal_with(vec![sensor("cpu0", "CPU", 8500)]);
    info.update_sensor_history("cpu0", 8500, 1);
    info.update_sensor_history("cpu0", 8700, 2);
    info.update_sensor_history("cpu0", 8900, 3);
    let p = info.predict_thermal_throttling(0);
    // projected = 8900 + 0 + 200 = 9100 -> throttling, heavy
    assert!(p.will_throttle);
    assert_eq!(p.severity, ThrottlingSeverity::Heavy);
    // time = (9000 - 8900) * 60 / 200 = 30 seconds
    assert_eq!(p.time_to_throttle_secs, Some(30));
    // |trend| = 200 is not above 200, so confidence stays 60
    assert_eq!(p.confidence_percent, 60);
    // the CPU runs hotter than the (absent) GPU reading
    assert_eq!(p.recommendations.len(), 3);
    assert_eq!(p.recommendations[2], "Focus on CPU cooling optimization");
}

#[test]
fn max_and_average_temperature() {
    let info = thermal_with(vec![
        sensor("a", "CPU", 4000),
        sensor("b", "GPU", 7000),
        sensor("c", "System", 1000),
    ]);
    assert_eq!(info.max_temperature(), Some(7000));
    assert_eq!(info.average_temperature(), Some(4000));
    let empty = thermal_with(Vec::new());
    assert_eq!(empty.max_temperature(), None);
    assert_eq!(empty.average_temperature(), None);
}

#[test]
fn thermal_status_buckets() {
    assert_eq!(
        ThermalInfo::calculate_thermal_status(&vec![sensor("a", "CPU", 9000)]),
        ThermalStatus::Critical
    );
    assert_eq!(
        ThermalInfo::calculate_thermal_status(&vec![sensor("a", "CPU", 8000)]),
        ThermalStatus::Hot
    );
    assert_eq!(
        ThermalInfo::calculate_thermal_status(&vec![sensor("a", "CPU", 7000)]),
        ThermalStatus::Warm
    );
    assert_eq!(
        ThermalInfo::calculate_thermal_status(&vec![sensor("a", "CPU", 6999)]),
        ThermalStatus::Normal
    );
    assert_eq!(ThermalInfo::calculate_thermal_status(&Vec::new()), ThermalStatus::Unknown);
}

#[test]
fn critical_temperature_detection() {
    let mut hot = sensor("a", "CPU", 9100);
    assert!(thermal_with(vec![hot.clone()]).has_critical_temperature());
    hot.critical_temperature_centi = Some(9500);
    assert!(!thermal_with(vec![hot]).has_critical_temperature());
    let cool = sensor("b", "CPU", 8000);
    assert!(!thermal_with(vec![cool]).has_critical_temperature());
}

#[test]
fn sensor_lookup_by_type() {
    let info = thermal_with(vec![
        sensor("s0", "System", 3000),
        sensor("c0", "CPU Package", 6100),
        sensor("g0", "GPU Core", 5200),
    ]);
    assert_eq!(info.cpu_temperature(), Some(6100));
    assert_eq!(info.gpu_temperature(), Some(5200));
    assert_eq!(info.find_temperature_by_type("system"), Some(3000));
    assert_eq!(info.find_temperature_by_type("npu"), None);
}

#[test]
fn cooling_suggestions_track_conditions() {
    // 92 degrees: fan-curve tuning plus thermal paste
    let info = thermal_with(vec![sensor("c0", "CPU", 9200)]);
    let recs = info.suggest_cooling_optimizations();
    assert_eq!(recs.len(), 3);
    assert_eq!(recs[0].recommendation_type, CoolingRecommendationType::FanCurveOptimization);
    assert_eq!(recs[0].expected_temp_reduction_centi, Some(300));
    assert_eq!(recs[0].difficulty, ImplementationDifficulty::Easy);
    assert_eq!(recs[0].cost_category, CostCategory::Free);
    assert_eq!(recs[1].recommendation_type, CoolingRecommendationType::ThermalPasteReplacement);
    assert_eq!(recs[2].recommendation_type, CoolingRecommendationType::CPUCoolerUpgrade);

    // cool system, warm room
    let mut cool = thermal_with(vec![sensor("c0", "CPU", 4000)]);
    cool.ambient_temperature_centi = Some(3200);
    let recs = cool.suggest_cooling_optimizations();
    assert_eq!(recs.len(), 1);
    assert_eq!(recs[0].recommendation_type, CoolingRecommendationType::EnvironmentalChanges);
    assert_eq!(recs[0].expected_temp_reduction_centi, Some(700));
}

#[test]
fn sustained_performance_buckets() {
    assert_eq!(thermal_with(vec![sensor("a", "CPU", 6000)]).calculate_sustained_performance(), 100);
    assert_eq!(thermal_with(vec![sensor("a", "CPU", 7500)]).calculate_sustained_performance(), 95);
    assert_eq!(thermal_with(vec![sensor("a", "CPU", 8500)]).calculate_sustained_performance(), 85);
    assert_eq!(thermal_with(vec![sensor("a", "CPU", 9500)]).calculate_sustained_performance(), 70);
}

#[test]
fn severity_labels() {
    assert_eq!(ThrottlingSeverity::NoThrottling.label(), "None");
    assert_eq!(ThrottlingSeverity::Light.label(), "Light");
    assert_eq!(ThrottlingSeverity::Moderate.label(), "Moderate");
    assert_eq!(ThrottlingSeverity::Heavy.label(), "Heavy");
    assert_eq!(ThrottlingSeverity::Severe.label(), "Severe");
}

#[test]
fn reading_values_are_kept() {
    let r = TemperatureReading { temperature_centi: 1234, timestamp_ms: 9 };
    assert_eq!(r.temperature_centi, 1234);
    assert_eq!(r.timestamp_ms, 9);
}
