//! Monitoring events and their abstract content.
//!
//! `MonitoringEvent` is the value fanned out to subscribers; `EventView`
//! is its abstract content, used by the contracts of the monitoring
//! engine to pin down exactly which events one tick publishes.

use vstd::prelude::*;
use vstd::string::StringExecFns;

use crate::hardware::{hw_eq, HardwareInfo};
use crate::power::{power_eq, PowerProfile};
use crate::thermal::{thermal_eq, ThermalInfo};

verus! {

/// Type of hardware configuration change
#[derive(Debug, Clone, Copy, PartialEq, Eq, Structural)]
pub enum HardwareChangeType {
    /// Device connected
    DeviceConnected,
    /// Device disconnected
    DeviceDisconnected,
    /// Driver changed
    DriverChanged,
    /// Configuration modified
    ConfigurationChanged,
    /// Performance state changed
    PerformanceStateChanged,
}

/// Hardware monitoring event: one observed fact at one instant.
#[derive(Debug)]
pub enum MonitoringEvent {
    /// Thermal threshold exceeded
    ThermalAlert {
        /// Name of the sensor that crossed the threshold
        sensor_name: String,
        /// Its reading in hundredths of a degree Celsius
        temperature_centi: i32,
        /// The configured threshold it crossed
        threshold_centi: i32,
        /// When the alert was raised, in milliseconds
        timestamp_ms: u64,
    },
    /// Power consumption alert
    PowerAlert {
        /// Current draw in centiwatts
        current_power_centiw: u64,
        /// The configured threshold it crossed
        threshold_centiw: u64,
        /// When the alert was raised, in milliseconds
        timestamp_ms: u64,
    },
    /// Hardware configuration changed
    HardwareChanged {
        /// Kind of change observed
        change_type: HardwareChangeType,
        /// Description of the change
        description: String,
        /// When the change was observed, in milliseconds
        timestamp_ms: u64,
    },
    /// Monitoring error occurred
    MonitoringError {
        /// Description of the failure
        error: String,
        /// When the failure was observed, in milliseconds
        timestamp_ms: u64,
    },
    /// Regular update with current metrics
    MetricsUpdate {
        /// Hardware snapshot obtained this tick, if any
        hardware_info: Option<HardwareInfo>,
        /// Thermal snapshot obtained this tick, if any
        thermal_info: Option<ThermalInfo>,
        /// Power snapshot obtained this tick, if any
        power_profile: Option<PowerProfile>,
        /// The tick's timestamp in milliseconds
        timestamp_ms: u64,
    },
}

/// Abstract content of one monitoring event.  A metrics update is
/// abstracted to which snapshots it carries; the snapshots themselves are
/// pinned by the tick contract on the concrete event.
pub enum EventView {
    /// Thermal threshold exceeded
    ThermalAlert {
        /// Sensor name
        sensor_name: Seq<char>,
        /// Reading in hundredths of a degree Celsius
        temperature_centi: i32,
        /// Threshold crossed
        threshold_centi: i32,
        /// Timestamp in milliseconds
        timestamp_ms: u64,
    },
    /// Power consumption alert
    PowerAlert {
        /// Draw in centiwatts
        current_power_centiw: u64,
        /// Threshold crossed
        threshold_centiw: u64,
        /// Timestamp in milliseconds
        timestamp_ms: u64,
    },
    /// Hardware configuration changed
    HardwareChanged {
        /// Kind of change observed
        change_type: HardwareChangeType,
        /// Description text
        description: Seq<char>,
        /// Timestamp in milliseconds
        timestamp_ms: u64,
    },
    /// Monitoring error occurred
    MonitoringError {
        /// Failure text
        error: Seq<char>,
        /// Timestamp in milliseconds
        timestamp_ms: u64,
    },
    /// Regular update with current metrics
    MetricsUpdate {
        /// Does the event carry a hardware snapshot?
        has_hardware: bool,
        /// Does the event carry a thermal snapshot?
        has_thermal: bool,
        /// Does the event carry a power snapshot?
        has_power: bool,
        /// Timestamp in milliseconds
        timestamp_ms: u64,
    },
}

/// The abstract content of an event value.
pub open spec fn event_view(e: MonitoringEvent) -> EventView {
    match e {
        MonitoringEvent::ThermalAlert { sensor_name, temperature_centi, threshold_centi, timestamp_ms } => EventView::ThermalAlert {
            sensor_name: sensor_name@,
            temperature_centi,
            threshold_centi,
            timestamp_ms,
        },
        MonitoringEvent::PowerAlert { current_power_centiw, threshold_centiw, timestamp_ms } => EventView::PowerAlert {
            current_power_centiw,
            threshold_centiw,
            timestamp_ms,
        },
        MonitoringEvent::HardwareChanged { change_type, description, timestamp_ms } => EventView::HardwareChanged {
            change_type,
            description: description@,
            timestamp_ms,
        },
        MonitoringEvent::MonitoringError { error, timestamp_ms } => EventView::MonitoringError {
            error: error@,
            timestamp_ms,
        },
        MonitoringEvent::MetricsUpdate { hardware_info, thermal_info, power_profile, timestamp_ms } => EventView::MetricsUpdate {
            has_hardware: hardware_info is Some,
            has_thermal: thermal_info is Some,
            has_power: power_profile is Some,
            timestamp_ms,
        },
    }
}

/// The abstract content of a sequence of events.
pub open spec fn event_views(s: Seq<MonitoringEvent>) -> Seq<EventView> {
    s.map_values(|e: MonitoringEvent| event_view(e))
}

/// How many of the views are thermal alerts.
pub open spec fn count_thermal_alerts(s: Seq<EventView>) -> int
    decreases s.len(),
{
    if s.len() == 0 {
        0
    } else {
        count_thermal_alerts(s.drop_last()) + if s.last() matches EventView::ThermalAlert { .. } {
            1int
        } else {
            0int
        }
    }
}

/// How many of the views are power alerts.
pub open spec fn count_power_alerts(s: Seq<EventView>) -> int
    decreases s.len(),
{
    if s.len() == 0 {
        0
    } else {
        count_power_alerts(s.drop_last()) + if s.last() matches EventView::PowerAlert { .. } {
            1int
        } else {
            0int
        }
    }
}

/// How many of the views are hardware-change events.
pub open spec fn count_hardware_changes(s: Seq<EventView>) -> int
    decreases s.len(),
{
    if s.len() == 0 {
        0
    } else {
        count_hardware_changes(s.drop_last()) + if s.last() matches EventView::HardwareChanged {
            ..
        } {
            1int
        } else {
            0int
        }
    }
}

/// How many of the views are monitoring errors.
pub open spec fn count_errors(s: Seq<EventView>) -> int
    decreases s.len(),
{
    if s.len() == 0 {
        0
    } else {
        count_errors(s.drop_last()) + if s.last() matches EventView::MonitoringError { .. } {
            1int
        } else {
            0int
        }
    }
}

/// How many of the views are metrics updates.
pub open spec fn count_metrics_updates(s: Seq<EventView>) -> int
    decreases s.len(),
{
    if s.len() == 0 {
        0
    } else {
        count_metrics_updates(s.drop_last()) + if s.last() matches EventView::MetricsUpdate {
            ..
        } {
            1int
        } else {
            0int
        }
    }
}

/// Field-by-field equality of two events, over views; metrics updates
/// compare their snapshots with the snapshot equalities.
pub open spec fn event_eq(a: &MonitoringEvent, b: &MonitoringEvent) -> bool {
    &&& event_view(*a) == event_view(*b)
    &&& match (a, b) {
        (
            MonitoringEvent::MetricsUpdate {
                hardware_info: ha,
                thermal_info: ta,
                power_profile: pa,
                ..
            },
            MonitoringEvent::MetricsUpdate {
                hardware_info: hb,
                thermal_info: tb,
                power_profile: pb,
                ..
            },
        ) => {
            &&& match (ha, hb) {
                (Option::None, Option::None) => true,
                (Option::Some(x), Option::Some(y)) => hw_eq(x, y),
                _ => false,
            }
            &&& match (ta, tb) {
                (Option::None, Option::None) => true,
                (Option::Some(x), Option::Some(y)) => thermal_eq(x, y),
                _ => false,
            }
            &&& match (pa, pb) {
                (Option::None, Option::None) => true,
                (Option::Some(x), Option::Some(y)) => power_eq(x, y),
                _ => false,
            }
        },
        _ => true,
    }
}

impl Clone for MonitoringEvent {
    fn clone(&self) -> (r: Self)
        ensures
            event_eq(&r, self),
    {
        match self {
            MonitoringEvent::ThermalAlert {
                sensor_name,
                temperature_centi,
                threshold_centi,
                timestamp_ms,
            } => MonitoringEvent::ThermalAlert {
                sensor_name: sensor_name.clone(),
                temperature_centi: *temperature_centi,
                threshold_centi: *threshold_centi,
                timestamp_ms: *timestamp_ms,
            },
            MonitoringEvent::PowerAlert {
                current_power_centiw,
                threshold_centiw,
                timestamp_ms,
            } => MonitoringEvent::PowerAlert {
                current_power_centiw: *current_power_centiw,
                threshold_centiw: *threshold_centiw,
                timestamp_ms: *timestamp_ms,
            },
            MonitoringEvent::HardwareChanged {
                change_type,
                description,
                timestamp_ms,
            } => MonitoringEvent::HardwareChanged {
                change_type: *change_type,
                description: description.clone(),
                timestamp_ms: *timestamp_ms,
            },
            MonitoringEvent::MonitoringError { error, timestamp_ms } => {
                MonitoringEvent::MonitoringError {
                    error: error.clone(),
                    timestamp_ms: *timestamp_ms,
                }
            },
            MonitoringEvent::MetricsUpdate {
                hardware_info,
                thermal_info,
                power_profile,
                timestamp_ms,
            } => {
                let h = match hardware_info {
                    Option::Some(v) => Option::Some(v.clone()),
                    Option::None => Option::None,
                };
                let t = match thermal_info {
                    Option::Some(v) => Option::Some(v.clone()),
                    Option::None => Option::None,
                };
                let p = match power_profile {
                    Option::Some(v) => Option::Some(v.clone()),
                    Option::None => Option::None,
                };
                MonitoringEvent::MetricsUpdate {
                    hardware_info: h,
                    thermal_info: t,
                    power_profile: p,
                    timestamp_ms: *timestamp_ms,
                }
            },
        }
    }
}

impl MonitoringEvent {
    /// Is this event a metrics update?
    pub fn is_metrics_update(&self) -> (r: bool)
        ensures
            r == (event_view(*self) matches EventView::MetricsUpdate { .. }),
    {
        match self {
            MonitoringEvent::MetricsUpdate { .. } => true,
            _ => false,
        }
    }

    /// Is this event a thermal alert?
    pub fn is_thermal_alert(&self) -> (r: bool)
        ensures
            r == (event_view(*self) matches EventView::ThermalAlert { .. }),
    {
        match self {
            MonitoringEvent::ThermalAlert { .. } => true,
            _ => false,
        }
    }

    /// Is this event a monitoring error?
    pub fn is_monitoring_error(&self) -> (r: bool)
        ensures
            r == (event_view(*self) matches EventView::MonitoringError { .. }),
    {
        match self {
            MonitoringEvent::MonitoringError { .. } => true,
            _ => false,
        }
    }
}

/// Counts of an empty view sequence are all zero.
pub proof fn lemma_counts_empty()
    ensures
        count_thermal_alerts(Seq::<EventView>::empty()) == 0,
        count_power_alerts(Seq::<EventView>::empty()) == 0,
        count_hardware_changes(Seq::<EventView>::empty()) == 0,
        count_errors(Seq::<EventView>::empty()) == 0,
        count_metrics_updates(Seq::<EventView>::empty()) == 0,
{
}

/// Counts of a one-view sequence are decided by that view's variant.
pub proof fn lemma_counts_singleton(e: EventView)
    ensures
        count_thermal_alerts(seq![e]) == (if e matches EventView::ThermalAlert { .. } {
            1int
        } else {
            0int
        }),
        count_power_alerts(seq![e]) == (if e matches EventView::PowerAlert { .. } {
            1int
        } else {
            0int
        }),
        count_hardware_changes(seq![e]) == (if e matches EventView::HardwareChanged { .. } {
            1int
        } else {
            0int
        }),
        count_errors(seq![e]) == (if e matches EventView::MonitoringError { .. } {
            1int
        } else {
            0int
        }),
        count_metrics_updates(seq![e]) == (if e matches EventView::MetricsUpdate { .. } {
            1int
        } else {
            0int
        }),
{
    assert(seq![e].drop_last() =~= Seq::<EventView>::empty());
    lemma_counts_empty();
    assert(seq![e].last() == e);
}

/// Subscriber interface for push-style event delivery.  The runtime
/// driving the monitor invokes every registered callback once per
/// dispatched event, in publish order; implementations are the
/// subscriber's own responsibility.
pub trait MonitoringCallback: Send + Sync {
    /// Called for one dispatched event.
    fn on_event(&self, event: &MonitoringEvent);
}

} // verus!
