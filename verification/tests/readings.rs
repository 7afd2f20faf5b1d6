use battery_assistant::battery::service::SysfsBatteryService;
use battery_assistant::battery::types::{BatteryData, BatteryState};
use battery_assistant::logging::{truncate_before_write, MAX_LOG_SIZE};

#[test]
fn gather_skips_unreadable_batteries() {
    let service = SysfsBatteryService::new();
    let a = BatteryData { state: BatteryState::Charging, percentage: 4200, time_to_full: Some(60), time_to_empty: None };
    let b = BatteryData { state: BatteryState::Full, percentage: 10000, time_to_full: None, time_to_empty: None };
    let (data, errors) = service.gather(vec![Ok(a), Err("BAT1 unreadable".to_string()), Ok(b)]);
    assert_eq!(data, vec![a, b]);
    assert_eq!(errors, vec!["BAT1 unreadable".to_string()]);
}

#[test]
fn gather_of_nothing_is_empty() {
    let (data, errors) = SysfsBatteryService::new().gather(Vec::new());
    assert!(data.is_empty());
    assert!(errors.is_empty());
}

#[test]
fn log_rotation_threshold() {
    assert_eq!(MAX_LOG_SIZE, 5 * 1024 * 1024);
    assert!(!truncate_before_write(None));
    assert!(!truncate_before_write(Some(MAX_LOG_SIZE)));
    assert!(truncate_before_write(Some(MAX_LOG_SIZE + 1)));
}
