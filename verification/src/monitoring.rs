//! The continuous hardware-monitoring engine.
//!
//! `HardwareMonitor` is a polling state machine.  A runtime outside the
//! library drives it: while the monitor reports itself running, the
//! runtime samples the enabled categories once per configured interval
//! and hands the outcomes to [`HardwareMonitor::tick`], which evaluates
//! thresholds, publishes the tick's events to the dispatcher, refreshes
//! the cached snapshots, and updates the statistics.  Every decision the
//! loop makes is specified here; only the sampling and the sleeping live
//! outside.

use vstd::prelude::*;
use vstd::string::StringExecFns;

use crate::dispatch::{EventDispatcher, EventReceiver, Received};
use crate::error::HardwareQueryError;
use crate::events::{
    count_errors, count_hardware_changes, count_metrics_updates, count_power_alerts,
    count_thermal_alerts, event_view, event_views, lemma_counts_empty, lemma_counts_singleton,
    EventView, MonitoringEvent,
};
use crate::hardware::HardwareInfo;
use crate::num;
use crate::num::sat_add_u64;
use crate::power::PowerProfile;
use crate::thermal::{ThermalInfo, ThermalSensor};

verus! {

/// Hardware monitoring configuration.
///
/// The interval is milliseconds, the thermal threshold hundredths of a
/// degree Celsius, and the power threshold centiwatts.  A configuration
/// replaced while the monitor runs takes effect at the next tick: the
/// sleep already in flight is not shortened.
#[derive(Debug, Clone, Copy, PartialEq, Eq, Structural)]
pub struct MonitoringConfig {
    /// Update interval for hardware polling, in milliseconds
    pub update_interval_ms: u64,
    /// Enable thermal monitoring
    pub enable_thermal: bool,
    /// Enable power monitoring
    pub enable_power: bool,
    /// Enable general hardware monitoring
    pub enable_hardware: bool,
    /// Temperature threshold for thermal alerts (hundredths of a degree)
    pub thermal_threshold_centi: i32,
    /// Power threshold for power alerts (centiwatts)
    pub power_threshold_centiw: Option<u64>,
    /// Enable background monitoring
    pub background_monitoring: bool,
}

impl Default for MonitoringConfig {
    /// Five-second polling, every category enabled, an 80-degree thermal
    /// threshold, and no power threshold.
    fn default() -> (r: Self)
        ensures
            r == (MonitoringConfig {
                update_interval_ms: 5000u64,
                enable_thermal: true,
                enable_power: true,
                enable_hardware: true,
                thermal_threshold_centi: 8000i32,
                power_threshold_centiw: Option::<u64>::None,
                background_monitoring: true,
            }),
    {
        MonitoringConfig {
            update_interval_ms: 5000,
            enable_thermal: true,
            enable_power: true,
            enable_hardware: true,
            thermal_threshold_centi: 8000,
            power_threshold_centiw: Option::None,
            background_monitoring: true,
        }
    }
}

/// Monitoring statistics.  Counters saturate at `u64::MAX` instead of
/// wrapping; durations are milliseconds.
#[derive(Debug, Clone, Copy, PartialEq, Eq, Structural)]
pub struct MonitoringStats {
    /// Total monitoring events generated
    pub total_events: u64,
    /// Thermal alerts generated
    pub thermal_alerts: u64,
    /// Power alerts generated
    pub power_alerts: u64,
    /// Hardware change events
    pub hardware_changes: u64,
    /// Monitoring errors encountered
    pub errors: u64,
    /// Monitoring uptime in milliseconds
    pub uptime_ms: u64,
    /// Last update timestamp in milliseconds
    pub last_update_ms: u64,
    /// Average update interval in milliseconds
    pub average_update_interval_ms: u64,
}

/// The outcome of sampling one category: the snapshot, or a description
/// of why the provider failed.
pub type ProviderOutcome<T> = Result<T, String>;

/// The rolling window after one more tick duration: the duration is
/// appended and, if the window would exceed 100 entries, the oldest entry
/// is dropped.
pub open spec fn window_push(w: Seq<u64>, d: u64) -> Seq<u64> {
    if w.len() + 1 > 100 {
        w.push(d).drop_first()
    } else {
        w.push(d)
    }
}

/// Sum of the durations in the window.
pub open spec fn window_sum(w: Seq<u64>) -> int
    decreases w.len(),
{
    if w.len() == 0 {
        0
    } else {
        window_sum(w.drop_last()) + w.last()
    }
}

/// Average of the durations in the window, zero when it is empty.
pub open spec fn window_avg(w: Seq<u64>) -> int {
    if w.len() == 0 {
        0
    } else {
        window_sum(w) / (w.len() as int)
    }
}

/// Event views owed to the hardware category: a monitoring error when the
/// provider failed, nothing otherwise.
pub open spec fn hw_views(hardware: Option<ProviderOutcome<HardwareInfo>>, now_ms: u64) -> Seq<
    EventView,
> {
    match hardware {
        Option::Some(Result::Err(e)) => seq![
            EventView::MonitoringError {
                error: "Failed to query hardware info: "@ + e@,
                timestamp_ms: now_ms,
            },
        ],
        _ => Seq::empty(),
    }
}

/// Thermal alert views for the first `i` sensors: one alert, in sensor
/// order, for every sensor whose reading is at or above the threshold.
pub open spec fn alert_views_upto(
    sensors: Seq<ThermalSensor>,
    threshold_centi: i32,
    now_ms: u64,
    i: int,
) -> Seq<EventView>
    decreases i,
{
    if i <= 0 {
        Seq::empty()
    } else {
        alert_views_upto(sensors, threshold_centi, now_ms, i - 1) + if sensors[i
            - 1].temperature_centi >= threshold_centi {
            seq![
                EventView::ThermalAlert {
                    sensor_name: sensors[i - 1].name@,
                    temperature_centi: sensors[i - 1].temperature_centi,
                    threshold_centi,
                    timestamp_ms: now_ms,
                },
            ]
        } else {
            Seq::empty()
        }
    }
}

/// Event views owed to the thermal category: its alerts on success, a
/// monitoring error on failure.
pub open spec fn thermal_views(
    thermal: Option<ProviderOutcome<ThermalInfo>>,
    threshold_centi: i32,
    now_ms: u64,
) -> Seq<EventView> {
    match thermal {
        Option::Some(Result::Ok(t)) => alert_views_upto(
            t.sensors@,
            threshold_centi,
            now_ms,
            t.sensors@.len() as int,
        ),
        Option::Some(Result::Err(e)) => seq![
            EventView::MonitoringError {
                error: "Failed to query thermal info: "@ + e@,
                timestamp_ms: now_ms,
            },
        ],
        Option::None => Seq::empty(),
    }
}

/// Event views owed to the power category: an alert when both a draw and
/// a threshold exist and the draw is at or above it, a monitoring error
/// on failure.
pub open spec fn power_views(
    power: Option<ProviderOutcome<PowerProfile>>,
    threshold_centiw: Option<u64>,
    now_ms: u64,
) -> Seq<EventView> {
    match power {
        Option::Some(Result::Ok(p)) => match (p.total_power_draw_centiw, threshold_centiw) {
            (Option::Some(draw), Option::Some(th)) => if draw >= th {
                seq![
                    EventView::PowerAlert {
                        current_power_centiw: draw,
                        threshold_centiw: th,
                        timestamp_ms: now_ms,
                    },
                ]
            } else {
                Seq::empty()
            },
            _ => Seq::empty(),
        },
        Option::Some(Result::Err(e)) => seq![
            EventView::MonitoringError {
                error: "Failed to query power profile: "@ + e@,
                timestamp_ms: now_ms,
            },
        ],
        Option::None => Seq::empty(),
    }
}

/// All event views one tick publishes, in order: the hardware part, the
/// thermal part, the power part, and always exactly one metrics update.
pub open spec fn spec_tick_views(
    config: MonitoringConfig,
    hardware: Option<ProviderOutcome<HardwareInfo>>,
    thermal: Option<ProviderOutcome<ThermalInfo>>,
    power: Option<ProviderOutcome<PowerProfile>>,
    now_ms: u64,
) -> Seq<EventView> {
    hw_views(hardware, now_ms) + thermal_views(thermal, config.thermal_threshold_centi, now_ms)
        + power_views(power, config.power_threshold_centiw, now_ms) + seq![
        EventView::MetricsUpdate {
            has_hardware: hardware matches Option::Some(Result::Ok(_)),
            has_thermal: thermal matches Option::Some(Result::Ok(_)),
            has_power: power matches Option::Some(Result::Ok(_)),
            timestamp_ms: now_ms,
        },
    ]
}

/// An upper bound on how many events one tick can publish.
pub open spec fn tick_event_bound(thermal: &Option<ProviderOutcome<ThermalInfo>>) -> int {
    4 + match thermal {
        Option::Some(Result::Ok(t)) => t.sensors@.len() as int,
        _ => 0,
    }
}

/// The alert views for a prefix never outnumber the sensors in it.
proof fn lemma_alert_views_len(sensors: Seq<ThermalSensor>, threshold_centi: i32, now_ms: u64,
    i: int)
    requires
        i >= 0,
    ensures
        alert_views_upto(sensors, threshold_centi, now_ms, i).len() <= i,
    decreases i,
{
    if i > 0 {
        lemma_alert_views_len(sensors, threshold_centi, now_ms, i - 1);
    }
}

/// A tick publishes no more than `tick_event_bound` events.
pub proof fn lemma_tick_views_bounded(
    config: MonitoringConfig,
    hardware: Option<ProviderOutcome<HardwareInfo>>,
    thermal: Option<ProviderOutcome<ThermalInfo>>,
    power: Option<ProviderOutcome<PowerProfile>>,
    now_ms: u64,
)
    ensures
        spec_tick_views(config, hardware, thermal, power, now_ms).len() <= tick_event_bound(
            &thermal,
        ),
{
    match thermal {
        Option::Some(Result::Ok(t)) => {
            lemma_alert_views_len(
                t.sensors@,
                config.thermal_threshold_centi,
                now_ms,
                t.sensors@.len() as int,
            );
        },
        _ => {},
    }
}

/// Real-time hardware monitor: the scheduler state machine.
///
/// `Stopped` and `Running` are the two lifecycle states, held in
/// `running`; `start_monitoring` refuses a second start, and
/// `stop_monitoring` is idempotent.  The runtime outside the library
/// observes the flag between ticks, so stopping takes effect within one
/// polling interval.
pub struct HardwareMonitor {
    /// Configuration in force (replaceable; applies from the next tick)
    pub config: MonitoringConfig,
    /// Broadcast fan-out of monitoring events
    pub dispatcher: EventDispatcher,
    /// Counters and timing statistics
    pub stats: MonitoringStats,
    /// Is the monitor running?
    pub running: bool,
    /// When the monitor was created, in milliseconds
    pub start_time_ms: u64,
    /// Rolling window of the most recent tick durations (at most 100)
    pub update_times: Vec<u64>,
    /// Last hardware snapshot successfully obtained
    pub last_hardware_info: Option<HardwareInfo>,
    /// Last thermal snapshot successfully obtained
    pub last_thermal_info: Option<ThermalInfo>,
    /// Last power profile successfully obtained
    pub last_power_profile: Option<PowerProfile>,
}

impl HardwareMonitor {
    /// The dispatcher is consistent and the rolling window bounded.
    pub open spec fn wf(&self) -> bool {
        &&& self.dispatcher.wf()
        &&& self.update_times@.len() <= 100
    }

    /// How many events this monitor has ever published.
    pub open spec fn published(&self) -> int {
        self.dispatcher.published()
    }

    /// Create a monitor with the default configuration.  `now_ms` is the
    /// creation time, the base for uptime.
    pub fn new(now_ms: u64) -> (r: HardwareMonitor)
        ensures
            r.wf(),
            r.config == (MonitoringConfig {
                update_interval_ms: 5000u64,
                enable_thermal: true,
                enable_power: true,
                enable_hardware: true,
                thermal_threshold_centi: 8000i32,
                power_threshold_centiw: Option::<u64>::None,
                background_monitoring: true,
            }),
            !r.running,
            r.published() == 0,
            r.stats == initial_stats(now_ms),
            r.start_time_ms == now_ms,
            r.update_times@ == Seq::<u64>::empty(),
            r.last_hardware_info is None,
            r.last_thermal_info is None,
            r.last_power_profile is None,
    {
        HardwareMonitor::with_config(MonitoringConfig::default(), now_ms)
    }

    /// Create a monitor with a custom configuration.  `now_ms` is the
    /// creation time, the base for uptime.
    pub fn with_config(config: MonitoringConfig, now_ms: u64) -> (r: HardwareMonitor)
        ensures
            r.wf(),
            r.config == config,
            !r.running,
            r.published() == 0,
            r.stats == initial_stats(now_ms),
            r.start_time_ms == now_ms,
            r.update_times@ == Seq::<u64>::empty(),
            r.last_hardware_info is None,
            r.last_thermal_info is None,
            r.last_power_profile is None,
    {
        HardwareMonitor {
            config,
            dispatcher: EventDispatcher::new(1000),
            stats: MonitoringStats {
                total_events: 0,
                thermal_alerts: 0,
                power_alerts: 0,
                hardware_changes: 0,
                errors: 0,
                uptime_ms: 0,
                last_update_ms: now_ms,
                average_update_interval_ms: 0,
            },
            running: false,
            start_time_ms: now_ms,
            update_times: Vec::new(),
            last_hardware_info: Option::None,
            last_thermal_info: Option::None,
            last_power_profile: Option::None,
        }
    }

    /// Mark the monitor running.  A monitor that is already running is
    /// refused with an `InvalidConfiguration` error and left untouched;
    /// in particular its statistics are not reset.
    pub fn start_monitoring(&mut self) -> (r: Result<(), HardwareQueryError>)
        ensures
            spec_start_transition(*old(self), *final(self)),
            old(self).running ==> (r matches Err(HardwareQueryError::InvalidConfiguration(m))
                && m@ == "Monitoring is already running"@),
            !old(self).running ==> r is Ok,
    {
        if self.running {
            Err(HardwareQueryError::invalid_configuration("Monitoring is already running"))
        } else {
            self.running = true;
            Ok(())
        }
    }

    /// Clear the running flag.  Stopping an already-stopped monitor is a
    /// no-op; the loop outside observes the flag within one interval.
    pub fn stop_monitoring(&mut self)
        ensures
            spec_stop_transition(*old(self), *final(self)),
    {
        self.running = false;
    }

    /// Is monitoring currently running?
    pub fn is_monitoring(&self) -> (r: bool)
        ensures
            r == self.running,
    {
        self.running
    }

    /// Replace the configuration.  On a running monitor the new values
    /// take effect at the next tick; the interval already being slept is
    /// not changed.
    pub fn update_config(&mut self, new_config: MonitoringConfig)
        ensures
            final(self).config == new_config,
            final(self).running == old(self).running,
            final(self).stats == old(self).stats,
            final(self).start_time_ms == old(self).start_time_ms,
            final(self).dispatcher == old(self).dispatcher,
            final(self).update_times == old(self).update_times,
            final(self).last_hardware_info == old(self).last_hardware_info,
            final(self).last_thermal_info == old(self).last_thermal_info,
            final(self).last_power_profile == old(self).last_power_profile,
    {
        self.config = new_config;
    }

    /// Subscribe to monitoring events: the receiver sees every event
    /// published after this call.
    pub fn subscribe(&self) -> (r: EventReceiver)
        requires
            self.wf(),
        ensures
            r.cursor == self.published(),
    {
        self.dispatcher.subscribe()
    }

    /// Poll the next event for a receiver.
    pub fn recv_event<'a>(&'a self, rx: &mut EventReceiver) -> (r: Received<'a>)
        requires
            self.wf(),
            old(rx).cursor <= self.published(),
        ensures
            old(rx).cursor < self.dispatcher.base ==> (r matches Received::Lagged(n) && n
                == self.dispatcher.base - old(rx).cursor && final(rx).cursor
                == self.dispatcher.base),
            self.dispatcher.base <= old(rx).cursor < self.published() ==> (r
                matches Received::Event(e) && *e == self.dispatcher.log@[old(rx).cursor as int]
                && final(rx).cursor == old(rx).cursor + 1),
            old(rx).cursor == self.published() ==> (r matches Received::Empty && final(rx).cursor
                == old(rx).cursor),
    {
        self.dispatcher.recv(rx)
    }

    /// One polling tick: evaluate the provider outcomes of the enabled
    /// categories against the configured thresholds, publish the tick's
    /// events (always ending in exactly one metrics update), refresh the
    /// caches for the categories that succeeded, and update the
    /// statistics.  A provider failure never stops the loop: it becomes a
    /// monitoring-error event and the failed category's cache keeps its
    /// previous value.
    ///
    /// `now_ms` is the tick's timestamp and `elapsed_ms` the measured
    /// duration of this tick's sampling, fed into the rolling window of
    /// the 100 most recent tick durations.
    #[verifier::rlimit(50)]
    pub fn tick(
        &mut self,
        now_ms: u64,
        elapsed_ms: u64,
        hardware: Option<ProviderOutcome<HardwareInfo>>,
        thermal: Option<ProviderOutcome<ThermalInfo>>,
        power: Option<ProviderOutcome<PowerProfile>>,
    )
        requires
            old(self).wf(),
            old(self).running,
            hardware is Some <==> old(self).config.enable_hardware,
            thermal is Some <==> old(self).config.enable_thermal,
            power is Some <==> old(self).config.enable_power,
            old(self).published() + tick_event_bound(&thermal) <= u64::MAX,
        ensures
            final(self).wf(),
            final(self).running == old(self).running,
            final(self).config == old(self).config,
            final(self).start_time_ms == old(self).start_time_ms,
            final(self).dispatcher.log@.len() == old(self).dispatcher.log@.len()
                + spec_tick_views(old(self).config, hardware, thermal, power, now_ms).len(),
            final(self).dispatcher.log@.subrange(0, old(self).published())
                == old(self).dispatcher.log@,
            event_views(final(self).dispatcher.log@.skip(old(self).published()))
                == spec_tick_views(old(self).config, hardware, thermal, power, now_ms),
            ({
                let e = final(self).dispatcher.log@.last();
                &&& e matches MonitoringEvent::MetricsUpdate {
                    hardware_info,
                    thermal_info,
                    power_profile,
                    timestamp_ms,
                }
                &&& timestamp_ms == now_ms
                &&& (match (hardware, hardware_info) {
                    (Option::Some(Result::Ok(v)), Option::Some(h)) => crate::hardware::hw_eq(
                        &h,
                        &v,
                    ),
                    (Option::Some(Result::Ok(v)), Option::None) => false,
                    (_, Option::Some(_)) => false,
                    (_, Option::None) => true,
                })
                &&& (match (thermal, thermal_info) {
                    (Option::Some(Result::Ok(v)), Option::Some(t)) => crate::thermal::thermal_eq(
                        &t,
                        &v,
                    ),
                    (Option::Some(Result::Ok(v)), Option::None) => false,
                    (_, Option::Some(_)) => false,
                    (_, Option::None) => true,
                })
                &&& (match (power, power_profile) {
                    (Option::Some(Result::Ok(v)), Option::Some(p)) => crate::power::power_eq(
                        &p,
                        &v,
                    ),
                    (Option::Some(Result::Ok(v)), Option::None) => false,
                    (_, Option::Some(_)) => false,
                    (_, Option::None) => true,
                })
            }),
            (match hardware {
                Option::Some(Result::Ok(v)) => final(self).last_hardware_info == Option::Some(v),
                _ => final(self).last_hardware_info == old(self).last_hardware_info,
            }),
            (match thermal {
                Option::Some(Result::Ok(v)) => final(self).last_thermal_info == Option::Some(v),
                _ => final(self).last_thermal_info == old(self).last_thermal_info,
            }),
            (match power {
                Option::Some(Result::Ok(v)) => final(self).last_power_profile == Option::Some(v),
                _ => final(self).last_power_profile == old(self).last_power_profile,
            }),
            ({
                let tv = spec_tick_views(old(self).config, hardware, thermal, power, now_ms);
                &&& final(self).stats.total_events == sat_add_u64(
                    old(self).stats.total_events,
                    tv.len() as u64,
                )
                &&& final(self).stats.thermal_alerts == sat_add_u64(
                    old(self).stats.thermal_alerts,
                    count_thermal_alerts(tv) as u64,
                )
                &&& final(self).stats.power_alerts == sat_add_u64(
                    old(self).stats.power_alerts,
                    count_power_alerts(tv) as u64,
                )
                &&& final(self).stats.hardware_changes == sat_add_u64(
                    old(self).stats.hardware_changes,
                    count_hardware_changes(tv) as u64,
                )
                &&& final(self).stats.errors == sat_add_u64(
                    old(self).stats.errors,
                    count_errors(tv) as u64,
                )
            }),
            final(self).stats.last_update_ms == now_ms,
            final(self).stats.uptime_ms == old(self).stats.uptime_ms,
            final(self).update_times@ == window_push(old(self).update_times@, elapsed_ms),
            final(self).stats.average_update_interval_ms == window_avg(
                final(self).update_times@,
            ),
    {
        let ghost cfg = self.config;
        let ghost tv = spec_tick_views(cfg, hardware, thermal, power, now_ms);
        let threshold = self.config.thermal_threshold_centi;
        let power_threshold = self.config.power_threshold_centiw;

        let mut events: Vec<MonitoringEvent> = Vec::new();
        let mut hardware_info: Option<HardwareInfo> = Option::None;
        let mut thermal_info: Option<ThermalInfo> = Option::None;
        let mut power_profile: Option<PowerProfile> = Option::None;

        match hardware {
            Option::None => {},
            Option::Some(Result::Ok(v)) => {
                hardware_info = Option::Some(v);
            },
            Option::Some(Result::Err(e)) => {
                let mut msg = String::from_str("Failed to query hardware info: ");
                msg.append(e.as_str());
                events.push(MonitoringEvent::MonitoringError { error: msg, timestamp_ms: now_ms });
            },
        }
        proof {
            assert(event_views(events@) =~= hw_views(hardware, now_ms));
        }

        match thermal {
            Option::None => {},
            Option::Some(Result::Ok(t)) => {
                push_thermal_alerts(&mut events, &t.sensors, threshold, now_ms);
                thermal_info = Option::Some(t);
            },
            Option::Some(Result::Err(e)) => {
                let mut msg = String::from_str("Failed to query thermal info: ");
                msg.append(e.as_str());
                events.push(MonitoringEvent::MonitoringError { error: msg, timestamp_ms: now_ms });
            },
        }
        proof {
            assert(event_views(events@) =~= hw_views(hardware, now_ms) + thermal_views(
                thermal,
                cfg.thermal_threshold_centi,
                now_ms,
            ));
        }

        match power {
            Option::None => {},
            Option::Some(Result::Ok(p)) => {
                match (p.total_power_draw_centiw, power_threshold) {
                    (Option::Some(draw), Option::Some(th)) => {
                        if draw >= th {
                            events.push(
                                MonitoringEvent::PowerAlert {
                                    current_power_centiw: draw,
                                    threshold_centiw: th,
                                    timestamp_ms: now_ms,
                                },
                            );
                        }
                    },
                    _ => {},
                }
                power_profile = Option::Some(p);
            },
            Option::Some(Result::Err(e)) => {
                let mut msg = String::from_str("Failed to query power profile: ");
                msg.append(e.as_str());
                events.push(MonitoringEvent::MonitoringError { error: msg, timestamp_ms: now_ms });
            },
        }
        proof {
            assert(event_views(events@) =~= hw_views(hardware, now_ms) + thermal_views(
                thermal,
                cfg.thermal_threshold_centi,
                now_ms,
            ) + power_views(power, cfg.power_threshold_centiw, now_ms));
        }

        let metrics_hw: Option<HardwareInfo> = match &hardware_info {
            Option::Some(v) => Option::Some(v.clone()),
            Option::None => Option::None,
        };
        let metrics_th: Option<ThermalInfo> = match &thermal_info {
            Option::Some(v) => Option::Some(v.clone()),
            Option::None => Option::None,
        };
        let metrics_pw: Option<PowerProfile> = match &power_profile {
            Option::Some(v) => Option::Some(v.clone()),
            Option::None => Option::None,
        };
        events.push(
            MonitoringEvent::MetricsUpdate {
                hardware_info: metrics_hw,
                thermal_info: metrics_th,
                power_profile: metrics_pw,
                timestamp_ms: now_ms,
            },
        );
        proof {
            assert(event_views(events@) =~= tv);
        }

        match hardware_info {
            Option::Some(v) => {
                self.last_hardware_info = Option::Some(v);
            },
            Option::None => {},
        }
        match thermal_info {
            Option::Some(v) => {
                self.last_thermal_info = Option::Some(v);
            },
            Option::None => {},
        }
        match power_profile {
            Option::Some(v) => {
                self.last_power_profile = Option::Some(v);
            },
            Option::None => {},
        }

        let k = events.len();
        let (n_thermal, n_power, n_changes, n_errors) = count_event_kinds(&events);

        self.stats.total_events = num::saturating_add(self.stats.total_events, k as u64);
        self.stats.thermal_alerts = num::saturating_add(self.stats.thermal_alerts, n_thermal);
        self.stats.power_alerts = num::saturating_add(self.stats.power_alerts, n_power);
        self.stats.hardware_changes = num::saturating_add(self.stats.hardware_changes, n_changes);
        self.stats.errors = num::saturating_add(self.stats.errors, n_errors);
        self.stats.last_update_ms = now_ms;

        self.update_times.push(elapsed_ms);
        if self.update_times.len() > 100 {
            self.update_times.remove(0);
        }
        proof {
            assert(self.update_times@ =~= window_push(old(self).update_times@, elapsed_ms));
        }

        self.stats.average_update_interval_ms = window_average(&self.update_times);

        proof {
            lemma_tick_views_bounded(cfg, hardware, thermal, power, now_ms);
        }
        self.dispatcher.publish_batch(events);
        proof {
            assert(final(self).dispatcher.log@.subrange(0, old(self).published())
                =~= old(self).dispatcher.log@);
            assert(event_views(final(self).dispatcher.log@.skip(old(self).published())) =~= tv);
        }
    }

    /// Current statistics, with the uptime computed against `now_ms`.
    pub fn get_stats(&self, now_ms: u64) -> (r: MonitoringStats)
        ensures
            r.total_events == self.stats.total_events,
            r.thermal_alerts == self.stats.thermal_alerts,
            r.power_alerts == self.stats.power_alerts,
            r.hardware_changes == self.stats.hardware_changes,
            r.errors == self.stats.errors,
            r.last_update_ms == self.stats.last_update_ms,
            r.average_update_interval_ms == self.stats.average_update_interval_ms,
            r.uptime_ms == if now_ms >= self.start_time_ms {
                (now_ms - self.start_time_ms) as u64
            } else {
                0u64
            },
    {
        let uptime_ms: u64 = if now_ms >= self.start_time_ms {
            now_ms - self.start_time_ms
        } else {
            0
        };
        MonitoringStats {
            total_events: self.stats.total_events,
            thermal_alerts: self.stats.thermal_alerts,
            power_alerts: self.stats.power_alerts,
            hardware_changes: self.stats.hardware_changes,
            errors: self.stats.errors,
            uptime_ms,
            last_update_ms: self.stats.last_update_ms,
            average_update_interval_ms: self.stats.average_update_interval_ms,
        }
    }

    /// Last hardware snapshot successfully obtained, if any.
    pub fn get_last_hardware_info(&self) -> (r: Option<&HardwareInfo>)
        ensures
            r is Some <==> self.last_hardware_info is Some,
            r is Some ==> self.last_hardware_info->0 == r->0,
    {
        self.last_hardware_info.as_ref()
    }

    /// Last thermal snapshot successfully obtained, if any.
    pub fn get_last_thermal_info(&self) -> (r: Option<&ThermalInfo>)
        ensures
            r is Some <==> self.last_thermal_info is Some,
            r is Some ==> self.last_thermal_info->0 == r->0,
    {
        self.last_thermal_info.as_ref()
    }

    /// Last power profile successfully obtained, if any.
    pub fn get_last_power_profile(&self) -> (r: Option<&PowerProfile>)
        ensures
            r is Some <==> self.last_power_profile is Some,
            r is Some ==> self.last_power_profile->0 == r->0,
    {
        self.last_power_profile.as_ref()
    }
}

/// Append one thermal alert, in sensor order, for every sensor at or
/// above the threshold.
fn push_thermal_alerts(
    events: &mut Vec<MonitoringEvent>,
    sensors: &Vec<ThermalSensor>,
    threshold_centi: i32,
    now_ms: u64,
)
    ensures
        event_views(final(events)@) == event_views(old(events)@) + alert_views_upto(
            sensors@,
            threshold_centi,
            now_ms,
            sensors@.len() as int,
        ),
        final(events)@.len() <= old(events)@.len() + sensors@.len(),
{
    let n = sensors.len();
    let mut i: usize = 0;
    while i < n
        invariant
            n == sensors@.len(),
            i <= n,
            events@.len() <= old(events)@.len() + i,
            event_views(events@) == event_views(old(events)@) + alert_views_upto(
                sensors@,
                threshold_centi,
                now_ms,
                i as int,
            ),
        decreases n - i,
    {
        let s = &sensors[i];
        let ghost pre = events@;
        if s.temperature_centi >= threshold_centi {
            let ev = MonitoringEvent::ThermalAlert {
                sensor_name: s.name.clone(),
                temperature_centi: s.temperature_centi,
                threshold_centi,
                timestamp_ms: now_ms,
            };
            proof {
                assert(event_view(ev) == (EventView::ThermalAlert {
                    sensor_name: sensors@[i as int].name@,
                    temperature_centi: sensors@[i as int].temperature_centi,
                    threshold_centi,
                    timestamp_ms: now_ms,
                }));
            }
            events.push(ev);
            proof {
                assert(event_views(events@) =~= event_views(pre).push(event_view(ev)));
                assert(alert_views_upto(sensors@, threshold_centi, now_ms, i as int + 1)
                    =~= alert_views_upto(sensors@, threshold_centi, now_ms, i as int) + seq![
                    event_view(ev),
                ]);
                assert(event_views(events@) =~= event_views(old(events)@) + alert_views_upto(
                    sensors@,
                    threshold_centi,
                    now_ms,
                    i as int + 1,
                ));
            }
        } else {
            proof {
                assert(alert_views_upto(sensors@, threshold_centi, now_ms, i as int + 1)
                    =~= alert_views_upto(sensors@, threshold_centi, now_ms, i as int));
                assert(event_views(events@) =~= event_views(old(events)@) + alert_views_upto(
                    sensors@,
                    threshold_centi,
                    now_ms,
                    i as int + 1,
                ));
            }
        }
        i += 1;
    }
}

/// Count the thermal alerts, power alerts, hardware changes and errors in
/// a batch of events, in that order.
fn count_event_kinds(events: &Vec<MonitoringEvent>) -> (r: (u64, u64, u64, u64))
    ensures
        r.0 == count_thermal_alerts(event_views(events@)),
        r.1 == count_power_alerts(event_views(events@)),
        r.2 == count_hardware_changes(event_views(events@)),
        r.3 == count_errors(event_views(events@)),
{
    let ghost evs = event_views(events@);
    let k = events.len();
    let mut n_thermal: u64 = 0;
    let mut n_power: u64 = 0;
    let mut n_changes: u64 = 0;
    let mut n_errors: u64 = 0;
    let mut j: usize = 0;
    while j < k
        invariant
            k == events@.len(),
            evs == event_views(events@),
            j <= k,
            n_thermal == count_thermal_alerts(evs.subrange(0, j as int)),
            n_power == count_power_alerts(evs.subrange(0, j as int)),
            n_changes == count_hardware_changes(evs.subrange(0, j as int)),
            n_errors == count_errors(evs.subrange(0, j as int)),
            n_thermal <= j,
            n_power <= j,
            n_changes <= j,
            n_errors <= j,
        decreases k - j,
    {
        proof {
            assert(evs.subrange(0, j as int + 1) =~= evs.subrange(0, j as int).push(
                evs[j as int],
            ));
            assert(evs.subrange(0, j as int + 1).drop_last() =~= evs.subrange(0, j as int));
        }
        match &events[j] {
            MonitoringEvent::ThermalAlert { .. } => {
                n_thermal = n_thermal + 1;
            },
            MonitoringEvent::PowerAlert { .. } => {
                n_power = n_power + 1;
            },
            MonitoringEvent::HardwareChanged { .. } => {
                n_changes = n_changes + 1;
            },
            MonitoringEvent::MonitoringError { .. } => {
                n_errors = n_errors + 1;
            },
            MonitoringEvent::MetricsUpdate { .. } => {},
        }
        j += 1;
    }
    proof {
        assert(evs.subrange(0, k as int) =~= evs);
    }
    (n_thermal, n_power, n_changes, n_errors)
}

/// Average of the durations in the rolling window, rounded down; zero
/// when the window is empty.
fn window_average(times: &Vec<u64>) -> (r: u64)
    ensures
        r == window_avg(times@),
{
    let wn = times.len();
    let mut wsum: u128 = 0;
    let mut w: usize = 0;
    while w < wn
        invariant
            wn == times@.len(),
            w <= wn,
            wsum == window_sum(times@.subrange(0, w as int)),
            wsum <= (w as int) * (u64::MAX as int),
        decreases wn - w,
    {
        proof {
            assert(times@.subrange(0, w as int + 1) =~= times@.subrange(0, w as int).push(
                times@[w as int],
            ));
            assert(times@.subrange(0, w as int + 1).drop_last() =~= times@.subrange(0, w as int));
        }
        let d = times[w];
        wsum = wsum + d as u128;
        w += 1;
    }
    proof {
        assert(times@.subrange(0, wn as int) =~= times@);
    }
    if wn > 0 {
        let avg_w: u128 = wsum / (wn as u128);
        proof {
            num::lemma_trunc_div_bounded(wsum as int, wn as int, u64::MAX as int);
        }
        avg_w as u64
    } else {
        0
    }
}

/// The statistics a fresh monitor starts with.
pub open spec fn initial_stats(now_ms: u64) -> MonitoringStats {
    MonitoringStats {
        total_events: 0,
        thermal_alerts: 0,
        power_alerts: 0,
        hardware_changes: 0,
        errors: 0,
        uptime_ms: 0,
        last_update_ms: now_ms,
        average_update_interval_ms: 0,
    }
}

/// Everything but the running flag is kept by a lifecycle transition.
pub open spec fn spec_lifecycle_frame(pre: HardwareMonitor, post: HardwareMonitor) -> bool {
    &&& post.config == pre.config
    &&& post.stats == pre.stats
    &&& post.start_time_ms == pre.start_time_ms
    &&& post.dispatcher == pre.dispatcher
    &&& post.update_times == pre.update_times
    &&& post.last_hardware_info == pre.last_hardware_info
    &&& post.last_thermal_info == pre.last_thermal_info
    &&& post.last_power_profile == pre.last_power_profile
}

/// What `start_monitoring` does to the monitor: the flag is set, and
/// everything else is kept -- also when the start is refused.
pub open spec fn spec_start_transition(pre: HardwareMonitor, post: HardwareMonitor) -> bool {
    &&& post.running
    &&& spec_lifecycle_frame(pre, post)
}

/// What `stop_monitoring` does to the monitor: the flag is cleared, and
/// everything else is kept.
pub open spec fn spec_stop_transition(pre: HardwareMonitor, post: HardwareMonitor) -> bool {
    &&& !post.running
    &&& spec_lifecycle_frame(pre, post)
}

/// Stopping is idempotent: a second stop changes nothing and the monitor
/// reports itself stopped after each of the two calls.
pub proof fn lemma_stop_idempotent(m0: HardwareMonitor, m1: HardwareMonitor, m2: HardwareMonitor)
    requires
        spec_stop_transition(m0, m1),
        spec_stop_transition(m1, m2),
    ensures
        !m1.running,
        !m2.running,
        m2 == m1,
{
}

/// A second start is rejected without a trace: when the monitor was
/// already running, `start_monitoring` leaves every part of it -- the
/// statistics and the event log included -- exactly as it was.
pub proof fn lemma_double_start_rejected(m0: HardwareMonitor, m1: HardwareMonitor)
    requires
        m0.running,
        spec_start_transition(m0, m1),
    ensures
        m1 == m0,
        m1.stats == m0.stats,
        m1.dispatcher.log@ == m0.dispatcher.log@,
{
}

/// How many of the views in a concatenation are metrics updates: the
/// counts of the parts add.
proof fn lemma_count_mu_concat(a: Seq<EventView>, b: Seq<EventView>)
    ensures
        count_metrics_updates(a + b) == count_metrics_updates(a) + count_metrics_updates(b),
    decreases b.len(),
{
    if b.len() == 0 {
        assert(a + b =~= a);
    } else {
        lemma_count_mu_concat(a, b.drop_last());
        assert((a + b).drop_last() =~= a + b.drop_last());
        assert((a + b).last() == b.last());
    }
}

/// No thermal alert view is a metrics update.
proof fn lemma_alert_views_no_mu(sensors: Seq<ThermalSensor>, threshold_centi: i32, now_ms: u64,
    i: int)
    ensures
        count_metrics_updates(alert_views_upto(sensors, threshold_centi, now_ms, i)) == 0,
    decreases i,
{
    if i > 0 {
        lemma_alert_views_no_mu(sensors, threshold_centi, now_ms, i - 1);
        let prev = alert_views_upto(sensors, threshold_centi, now_ms, i - 1);
        if sensors[i - 1].temperature_centi >= threshold_centi {
            let one = seq![
                EventView::ThermalAlert {
                    sensor_name: sensors[i - 1].name@,
                    temperature_centi: sensors[i - 1].temperature_centi,
                    threshold_centi,
                    timestamp_ms: now_ms,
                },
            ];
            lemma_counts_singleton(one[0]);
            assert(one =~= seq![one[0]]);
            lemma_count_mu_concat(prev, one);
        } else {
            lemma_counts_empty();
            lemma_count_mu_concat(prev, Seq::empty());
        }
    }
}

/// Every tick emits exactly one metrics update, whatever the providers
/// returned and however many alerts also fired.
pub proof fn lemma_tick_one_metrics_update(
    config: MonitoringConfig,
    hardware: Option<ProviderOutcome<HardwareInfo>>,
    thermal: Option<ProviderOutcome<ThermalInfo>>,
    power: Option<ProviderOutcome<PowerProfile>>,
    now_ms: u64,
)
    ensures
        count_metrics_updates(spec_tick_views(config, hardware, thermal, power, now_ms)) == 1,
{
    let hw = hw_views(hardware, now_ms);
    let th = thermal_views(thermal, config.thermal_threshold_centi, now_ms);
    let pw = power_views(power, config.power_threshold_centiw, now_ms);
    let mu = seq![
        EventView::MetricsUpdate {
            has_hardware: hardware matches Option::Some(Result::Ok(_)),
            has_thermal: thermal matches Option::Some(Result::Ok(_)),
            has_power: power matches Option::Some(Result::Ok(_)),
            timestamp_ms: now_ms,
        },
    ];
    assert(count_metrics_updates(hw) == 0) by {
        lemma_counts_empty();
        match hardware {
            Option::Some(Result::Err(e)) => {
                lemma_counts_singleton(hw[0]);
                assert(hw =~= seq![hw[0]]);
            },
            _ => {},
        }
    }
    assert(count_metrics_updates(th) == 0) by {
        lemma_counts_empty();
        match thermal {
            Option::Some(Result::Ok(t)) => {
                lemma_alert_views_no_mu(
                    t.sensors@,
                    config.thermal_threshold_centi,
                    now_ms,
                    t.sensors@.len() as int,
                );
            },
            Option::Some(Result::Err(e)) => {
                lemma_counts_singleton(th[0]);
                assert(th =~= seq![th[0]]);
            },
            Option::None => {},
        }
    }
    assert(count_metrics_updates(pw) == 0) by {
        lemma_counts_empty();
        match power {
            Option::Some(Result::Ok(p)) => {
                match (p.total_power_draw_centiw, config.power_threshold_centiw) {
                    (Option::Some(draw), Option::Some(t)) => {
                        if draw >= t {
                            lemma_counts_singleton(pw[0]);
                            assert(pw =~= seq![pw[0]]);
                        }
                    },
                    _ => {},
                }
            },
            Option::Some(Result::Err(e)) => {
                lemma_counts_singleton(pw[0]);
                assert(pw =~= seq![pw[0]]);
            },
            Option::None => {},
        }
    }
    assert(count_metrics_updates(mu) == 1) by {
        lemma_counts_singleton(mu[0]);
        assert(mu =~= seq![mu[0]]);
    }
    lemma_count_mu_concat(hw, th);
    lemma_count_mu_concat(hw + th, pw);
    lemma_count_mu_concat(hw + th + pw, mu);
}

/// How many of the first `i` sensors read at or above the threshold.
pub open spec fn count_hot_upto(sensors: Seq<ThermalSensor>, threshold_centi: i32, i: int) -> int
    decreases i,
{
    if i <= 0 {
        0
    } else {
        count_hot_upto(sensors, threshold_centi, i - 1) + if sensors[i - 1].temperature_centi
            >= threshold_centi {
            1int
        } else {
            0int
        }
    }
}

/// How many of the views in a concatenation are thermal alerts: the
/// counts of the parts add.
proof fn lemma_count_ta_concat(a: Seq<EventView>, b: Seq<EventView>)
    ensures
        count_thermal_alerts(a + b) == count_thermal_alerts(a) + count_thermal_alerts(b),
    decreases b.len(),
{
    if b.len() == 0 {
        assert(a + b =~= a);
    } else {
        lemma_count_ta_concat(a, b.drop_last());
        assert((a + b).drop_last() =~= a + b.drop_last());
        assert((a + b).last() == b.last());
    }
}

/// A successful thermal sample yields one thermal alert for each sensor
/// at or above the threshold, and no other alert: the alert count equals
/// the hot-sensor count.
pub proof fn lemma_alerts_match_hot_sensors(
    sensors: Seq<ThermalSensor>,
    threshold_centi: i32,
    now_ms: u64,
    i: int,
)
    ensures
        count_thermal_alerts(alert_views_upto(sensors, threshold_centi, now_ms, i))
            == count_hot_upto(sensors, threshold_centi, i),
    decreases i,
{
    if i > 0 {
        lemma_alerts_match_hot_sensors(sensors, threshold_centi, now_ms, i - 1);
        let prev = alert_views_upto(sensors, threshold_centi, now_ms, i - 1);
        if sensors[i - 1].temperature_centi >= threshold_centi {
            let one = seq![
                EventView::ThermalAlert {
                    sensor_name: sensors[i - 1].name@,
                    temperature_centi: sensors[i - 1].temperature_centi,
                    threshold_centi,
                    timestamp_ms: now_ms,
                },
            ];
            lemma_count_ta_concat(prev, one);
            assert(count_thermal_alerts(one) == 1) by {
                lemma_counts_singleton(one[0]);
                assert(one =~= seq![one[0]]);
            }
        } else {
            lemma_counts_empty();
            lemma_count_ta_concat(prev, Seq::empty());
        }
    }
}

/// A failed provider call degrades to exactly one monitoring-error view
/// for its category; the loop itself is untouched.
pub proof fn lemma_provider_failure_one_error(e: String, threshold_centi: i32, now_ms: u64)
    ensures
        thermal_views(
            Option::Some(Result::<ThermalInfo, String>::Err(e)),
            threshold_centi,
            now_ms,
        ).len() == 1,
        count_errors(
            thermal_views(Option::Some(Result::<ThermalInfo, String>::Err(e)), threshold_centi,
            now_ms),
        ) == 1,
{
    let v = thermal_views(
        Option::Some(Result::<ThermalInfo, String>::Err(e)),
        threshold_centi,
        now_ms,
    );
    assert(count_errors(v) == 1) by {
        lemma_counts_singleton(v[0]);
        assert(v =~= seq![v[0]]);
    }
}

/// The rolling window after one more duration never exceeds 100 entries;
/// below the cap the duration is appended, at the cap the oldest entry is
/// the one dropped.
pub proof fn lemma_window_bounded(w: Seq<u64>, d: u64)
    requires
        w.len() <= 100,
    ensures
        window_push(w, d).len() <= 100,
        w.len() < 100 ==> window_push(w, d) == w.push(d),
        w.len() == 100 ==> window_push(w, d) == w.drop_first().push(d),
{
    if w.len() == 100 {
        assert(w.push(d).drop_first() =~= w.drop_first().push(d));
    }
}

} // verus!
