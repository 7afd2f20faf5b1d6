use battery_assistant::assistant::{
    ensure_monitor_count, process_batteries, process_readings, PollScheduler, FAST_POLL_TICKS,
};
use battery_assistant::battery::monitor::{AlertEvent, BatteryMonitor, MonitorConfig, NANOS_PER_SEC};
use battery_assistant::battery::service::BatteryService;
use battery_assistant::battery::types::{BatteryData, BatteryState};
use battery_assistant::clock::MonotonicClock;

fn battery(pct: i64, state: BatteryState) -> BatteryData {
    BatteryData { state, percentage: pct, time_to_full: None, time_to_empty: None }
}

#[test]
fn ensure_monitor_count_grows_correctly() {
    let config = MonitorConfig::new(2000, 8000, 60);
    let mut monitors = Vec::new();
    ensure_monitor_count(&mut monitors, 2, &config);
    assert_eq!(monitors.len(), 2);

    ensure_monitor_count(&mut monitors, 1, &config);
    assert_eq!(monitors.len(), 1);
}

// ---- further cases ----

#[test]
fn ensure_monitor_count_keeps_existing_monitors() {
    let config = MonitorConfig::new(2000, 8000, 60);
    let mut monitors = vec![BatteryMonitor::new(config)];
    monitors[0].initialize(&battery(5000, BatteryState::Charging), 0);
    ensure_monitor_count(&mut monitors, 3, &config);
    assert_eq!(monitors.len(), 3);
    assert!(monitors[0].is_initialized());
    assert!(!monitors[1].is_initialized());
    assert!(!monitors[2].is_initialized());
}

#[test]
fn failure_keeps_state_and_waits_long() {
    let config = MonitorConfig::new(2000, 8000, 60);
    let mut monitors = Vec::new();
    let mut warned = false;
    let outcome =
        process_readings(Err("battery list: gone".to_string()), 0, &mut monitors, &config, &mut warned);
    assert_eq!(outcome.sleep_secs, 60);
    assert!(outcome.events.is_empty());
    assert!(!outcome.warn_no_batteries);
    assert_eq!(outcome.failure.as_deref(), Some("battery list: gone"));
    assert!(monitors.is_empty());
    assert!(!warned);
}

#[test]
fn no_battery_warning_is_given_once() {
    let config = MonitorConfig::new(2000, 8000, 60);
    let mut monitors = Vec::new();
    let mut warned = false;
    let first = process_readings(Ok(Vec::new()), 0, &mut monitors, &config, &mut warned);
    assert!(first.warn_no_batteries);
    assert_eq!(first.sleep_secs, 60);
    let second = process_readings(Ok(Vec::new()), 1, &mut monitors, &config, &mut warned);
    assert!(!second.warn_no_batteries);
    let with_battery =
        process_readings(Ok(vec![battery(5000, BatteryState::Discharging)]), 2, &mut monitors, &config, &mut warned);
    assert!(!with_battery.warn_no_batteries);
    assert!(!warned);
    let third = process_readings(Ok(Vec::new()), 3, &mut monitors, &config, &mut warned);
    assert!(third.warn_no_batteries);
}

#[test]
fn round_gives_events_in_battery_order_and_shortest_sleep() {
    let config = MonitorConfig::new(2000, 8000, 60);
    let mut monitors = Vec::new();
    let mut warned = false;
    let first = process_readings(
        Ok(vec![battery(5000, BatteryState::Discharging), battery(5000, BatteryState::Charging)]),
        0,
        &mut monitors,
        &config,
        &mut warned,
    );
    assert!(first.events.is_empty());
    assert_eq!(first.sleep_secs, 30);
    assert_eq!(monitors.len(), 2);
    let second = process_readings(
        Ok(vec![battery(1500, BatteryState::Discharging), battery(5000, BatteryState::Discharging)]),
        NANOS_PER_SEC,
        &mut monitors,
        &config,
        &mut warned,
    );
    assert_eq!(
        second.events,
        vec![
            AlertEvent::LowBattery { percentage: 1500, time_to_empty: None },
            AlertEvent::ChargerDisconnected
        ]
    );
    assert_eq!(second.sleep_secs, 5);
}

#[test]
fn first_round_initializes_before_evaluating() {
    let config = MonitorConfig::new(2000, 8000, 60);
    let mut monitors = Vec::new();
    let mut warned = false;
    let outcome = process_readings(
        Ok(vec![battery(1000, BatteryState::Discharging)]),
        0,
        &mut monitors,
        &config,
        &mut warned,
    );
    assert!(outcome.events.is_empty());
    assert!(monitors[0].is_initialized());
    assert_eq!(monitors[0].last_low_alert(), Some(0));
}

struct FixedService {
    readings: Vec<BatteryData>,
}

impl BatteryService for FixedService {
    fn batteries(&mut self) -> Result<Vec<BatteryData>, String> {
        Ok(self.readings.clone())
    }
}

#[test]
fn process_batteries_reads_the_service() {
    let config = MonitorConfig::new(2000, 8000, 60);
    let mut service = FixedService { readings: vec![battery(5000, BatteryState::Charging)] };
    let clock = MonotonicClock::start();
    let mut monitors = Vec::new();
    let mut warned = true;
    let outcome = process_batteries(&mut service, &clock, &mut monitors, &config, &mut warned);
    assert_eq!(monitors.len(), 1);
    assert!(!warned);
    assert_eq!(outcome.sleep_secs, 30);
}

#[test]
fn scheduler_polls_quickly_after_power_change() {
    let mut scheduler = PollScheduler::new();
    let plan = scheduler.next_wait(30, true);
    assert_eq!(plan.millis, 30_000);
    assert!(plan.listen);
    scheduler.power_changed();
    assert_eq!(scheduler.fast_polls_left(), FAST_POLL_TICKS);
    for _ in 0..FAST_POLL_TICKS {
        let plan = scheduler.next_wait(30, false);
        assert_eq!(plan.millis, 400);
        assert!(!plan.listen);
    }
    assert_eq!(scheduler.next_wait(5, true).millis, 5_000);
}

#[test]
fn clock_readings_do_not_go_back() {
    let clock = MonotonicClock::start();
    let a = clock.now();
    let b = clock.now();
    assert!(a <= b);
}
