use battery_assistant::battery::monitor::{
    should_alert_high, should_alert_low, AlertEvent, BatteryMonitor, MonitorConfig, NANOS_PER_SEC,
};
use battery_assistant::battery::types::{BatteryData, BatteryState};

fn battery(pct: i64, state: BatteryState) -> BatteryData {
    BatteryData { state, percentage: pct, time_to_full: None, time_to_empty: None }
}

fn secs(s: u128) -> u128 {
    s * NANOS_PER_SEC
}

#[test]
fn initialize_sets_previous_state() {
    let mut monitor = BatteryMonitor::new(MonitorConfig::new(2000, 8000, 60));
    monitor.initialize(&battery(5000, BatteryState::Discharging), 0);
    assert_eq!(monitor.previous_state(), BatteryState::Discharging);
}

#[test]
fn initialize_suppresses_initial_low_alert() {
    let mut monitor = BatteryMonitor::new(MonitorConfig::new(2000, 8000, 60));
    monitor.initialize(&battery(1500, BatteryState::Discharging), 0);
    assert!(monitor.last_low_alert().is_some());
}

#[test]
fn connecting_charger_emits_event() {
    let mut monitor = BatteryMonitor::new(MonitorConfig::new(2000, 8000, 60));
    monitor.initialize(&battery(5000, BatteryState::Discharging), 0);

    let events = monitor.process_cycle(&battery(5000, BatteryState::Charging), secs(1));
    assert_eq!(events, vec![AlertEvent::ChargerConnected]);
}

#[test]
fn disconnecting_charger_emits_event() {
    let mut monitor = BatteryMonitor::new(MonitorConfig::new(2000, 8000, 60));
    monitor.initialize(&battery(5000, BatteryState::Charging), 0);

    let events = monitor.process_cycle(&battery(5000, BatteryState::Discharging), secs(1));
    assert_eq!(events, vec![AlertEvent::ChargerDisconnected]);
}

#[test]
fn low_battery_alert() {
    let mut monitor = BatteryMonitor::new(MonitorConfig::new(2000, 8000, 60));
    monitor.initialize(&battery(5000, BatteryState::Discharging), 0);

    let events = monitor.process_cycle(&battery(1500, BatteryState::Discharging), secs(1));
    assert_eq!(events, vec![AlertEvent::LowBattery { percentage: 1500, time_to_empty: None }]);
}

#[test]
fn high_battery_alert() {
    let mut monitor = BatteryMonitor::new(MonitorConfig::new(2000, 8000, 60));
    monitor.initialize(&battery(5000, BatteryState::Charging), 0);

    let events = monitor.process_cycle(&battery(8500, BatteryState::Charging), secs(1));
    assert_eq!(events, vec![AlertEvent::HighBattery { percentage: 8500, time_to_full: None }]);
}

#[test]
fn no_duplicate_events_within_cooldown() {
    let mut monitor = BatteryMonitor::new(MonitorConfig::new(2000, 8000, 60));
    monitor.initialize(&battery(5000, BatteryState::Discharging), 0);

    let events1 = monitor.process_cycle(&battery(1500, BatteryState::Discharging), secs(1));
    assert!(!events1.is_empty());

    let events2 = monitor.process_cycle(&battery(1400, BatteryState::Discharging), secs(2));
    assert!(events2.is_empty());
}

#[test]
fn unknown_state_does_not_trigger_state_change_event() {
    let mut monitor = BatteryMonitor::new(MonitorConfig::new(2000, 8000, 60));
    monitor.initialize(&battery(5000, BatteryState::Charging), 0);

    let events = monitor.process_cycle(&battery(5000, BatteryState::Unknown), secs(1));
    assert!(events.is_empty());
}

#[test]
fn dynamic_sleep_returns_long_in_safe_zone() {
    let monitor = BatteryMonitor::new(MonitorConfig::new(2000, 8000, 60));
    assert_eq!(monitor.dynamic_sleep(&battery(5000, BatteryState::Discharging)), 30);
}

#[test]
fn dynamic_sleep_returns_short_near_threshold() {
    let monitor = BatteryMonitor::new(MonitorConfig::new(2000, 8000, 60));
    assert_eq!(monitor.dynamic_sleep(&battery(2200, BatteryState::Discharging)), 5);
    assert_eq!(monitor.dynamic_sleep(&battery(7800, BatteryState::Charging)), 5);
}

#[test]
fn should_alert_low_checks_state_and_threshold() {
    assert!(should_alert_low(BatteryState::Discharging, 2000, 2000));
    assert!(!should_alert_low(BatteryState::Charging, 2000, 2000));
    assert!(!should_alert_low(BatteryState::Discharging, 2100, 2000));
}

#[test]
fn should_alert_high_checks_state_and_threshold() {
    assert!(should_alert_high(BatteryState::Charging, 8000, 8000));
    assert!(should_alert_high(BatteryState::Full, 8000, 8000));
    assert!(!should_alert_high(BatteryState::Discharging, 8000, 8000));
}

// ---- further cases ----

#[test]
fn low_alert_repeats_once_cooldown_has_passed() {
    let mut monitor = BatteryMonitor::new(MonitorConfig::new(2000, 8000, 60));
    monitor.initialize(&battery(5000, BatteryState::Discharging), 0);
    assert_eq!(monitor.process_cycle(&battery(1500, BatteryState::Discharging), secs(1)).len(), 1);
    assert!(monitor.process_cycle(&battery(1400, BatteryState::Discharging), secs(60)).is_empty());
    assert_eq!(
        monitor.process_cycle(&battery(1300, BatteryState::Discharging), secs(61)),
        vec![AlertEvent::LowBattery { percentage: 1300, time_to_empty: None }]
    );
}

#[test]
fn startup_high_level_waits_for_cooldown() {
    let mut monitor = BatteryMonitor::new(MonitorConfig::new(2000, 8000, 60));
    monitor.initialize(&battery(9000, BatteryState::Charging), secs(5));
    assert_eq!(monitor.last_high_alert(), Some(secs(5)));
    assert!(monitor.process_cycle(&battery(9100, BatteryState::Charging), secs(64)).is_empty());
    assert_eq!(monitor.process_cycle(&battery(9100, BatteryState::Charging), secs(65)).len(), 1);
}

#[test]
fn plugging_in_clears_low_cooldown() {
    let mut monitor = BatteryMonitor::new(MonitorConfig::new(2000, 8000, 60));
    monitor.initialize(&battery(1500, BatteryState::Discharging), 0);
    assert_eq!(
        monitor.process_cycle(&battery(1500, BatteryState::Charging), secs(1)),
        vec![AlertEvent::ChargerConnected]
    );
    assert_eq!(monitor.last_low_alert(), None);
    assert_eq!(
        monitor.process_cycle(&battery(1500, BatteryState::Discharging), secs(2)),
        vec![AlertEvent::ChargerDisconnected]
    );
    assert_eq!(
        monitor.process_cycle(&battery(1500, BatteryState::Discharging), secs(3)),
        vec![AlertEvent::LowBattery { percentage: 1500, time_to_empty: None }]
    );
}

#[test]
fn full_to_charging_is_not_announced() {
    let mut monitor = BatteryMonitor::new(MonitorConfig::new(2000, 8000, 60));
    monitor.initialize(&battery(10000, BatteryState::Full), 0);
    let events = monitor.process_cycle(&battery(9900, BatteryState::Charging), secs(1));
    assert!(events.is_empty());
    assert_eq!(monitor.previous_state(), BatteryState::Charging);
}

#[test]
fn unknown_start_takes_state_from_estimates() {
    let mut monitor = BatteryMonitor::new(MonitorConfig::new(2000, 8000, 60));
    let data = BatteryData {
        state: BatteryState::Unknown,
        percentage: 5000,
        time_to_full: None,
        time_to_empty: Some(3600),
    };
    monitor.initialize(&data, 0);
    assert_eq!(monitor.previous_state(), BatteryState::Discharging);
    assert!(monitor.is_initialized());
}

#[test]
fn low_alert_carries_estimate() {
    let mut monitor = BatteryMonitor::new(MonitorConfig::new(2000, 8000, 60));
    monitor.initialize(&battery(5000, BatteryState::Discharging), 0);
    let data = BatteryData {
        state: BatteryState::Discharging,
        percentage: 1000,
        time_to_full: None,
        time_to_empty: Some(900),
    };
    assert_eq!(
        monitor.process_cycle(&data, secs(1)),
        vec![AlertEvent::LowBattery { percentage: 1000, time_to_empty: Some(900) }]
    );
}

#[test]
fn cooldown_from_seconds() {
    assert_eq!(MonitorConfig::new(2000, 8000, 60).cooldown, 60_000_000_000);
}

#[test]
fn cooldown_holds_across_cycles_without_charging() {
    let mut monitor = BatteryMonitor::new(MonitorConfig::new(2000, 8000, 60));
    monitor.initialize(&battery(5000, BatteryState::Discharging), 0);
    assert_eq!(monitor.process_cycle(&battery(1500, BatteryState::Discharging), secs(1)).len(), 1);
    assert!(monitor.process_cycle(&battery(1500, BatteryState::Unknown), secs(10)).is_empty());
    assert!(monitor.process_cycle(&battery(1400, BatteryState::Empty), secs(20)).is_empty());
    assert!(monitor.process_cycle(&battery(1400, BatteryState::Unknown), secs(30)).is_empty());
    assert!(monitor.process_cycle(&battery(1300, BatteryState::Discharging), secs(60)).is_empty());
    assert_eq!(monitor.process_cycle(&battery(1300, BatteryState::Discharging), secs(61)).len(), 1);
}
