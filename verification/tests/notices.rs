use battery_assistant::alerts::notice_for;
use battery_assistant::audio::AudioEvent;
use battery_assistant::battery::monitor::AlertEvent;
use battery_assistant::notification::{DesktopNotification, Urgency};

#[test]
fn charger_notices() {
    let n = notice_for(&AlertEvent::ChargerConnected);
    assert_eq!(n.title, "Power");
    assert_eq!(n.body, "Charger connected");
    assert_eq!(n.urgency, Urgency::Normal);
    assert_eq!(n.sound, AudioEvent::Connected);

    let n = notice_for(&AlertEvent::ChargerDisconnected);
    assert_eq!(n.title, "Power");
    assert_eq!(n.body, "Running on battery power");
    assert_eq!(n.urgency, Urgency::Normal);
    assert_eq!(n.sound, AudioEvent::Disconnected);
}

#[test]
fn low_battery_notice_with_estimate() {
    let n = notice_for(&AlertEvent::LowBattery { percentage: 1500, time_to_empty: Some(1200) });
    assert_eq!(n.title, "Low Battery");
    assert_eq!(n.body, "Critical level: 15%. Connect the charger. Estimated 20 min remaining.");
    assert_eq!(n.urgency, Urgency::Critical);
    assert_eq!(n.sound, AudioEvent::LowBattery);
}

#[test]
fn low_battery_notice_without_estimate() {
    let n = notice_for(&AlertEvent::LowBattery { percentage: 987, time_to_empty: None });
    assert_eq!(n.body, "Critical level: 10%. Connect the charger.");
}

#[test]
fn high_battery_notice() {
    let n = notice_for(&AlertEvent::HighBattery { percentage: 8550, time_to_full: Some(2730) });
    assert_eq!(n.title, "Battery Full");
    assert_eq!(n.body, "Level reached: 86%. Unplug to preserve battery life. 46 min to full.");
    assert_eq!(n.urgency, Urgency::Normal);
    assert_eq!(n.sound, AudioEvent::HighBattery);
}

#[test]
fn high_battery_notice_hides_zero_estimate() {
    let n = notice_for(&AlertEvent::HighBattery { percentage: 10000, time_to_full: Some(0) });
    assert_eq!(n.body, "Level reached: 100%. Unplug to preserve battery life.");
}

#[test]
fn rounding_matches_float_formatting() {
    for hundredths in [0i64, 49, 50, 51, 149, 150, 151, 250, 1250, 1350, 9950, 10000, 12345] {
        let n = notice_for(&AlertEvent::LowBattery { percentage: hundredths, time_to_empty: None });
        let expected = format!(
            "Critical level: {:.0}%. Connect the charger.",
            hundredths as f64 / 100.0
        );
        assert_eq!(n.body, expected, "hundredths {hundredths}");
    }
    for secs in [0u64, 29, 30, 31, 89, 90, 91, 150, 3600, 5430] {
        let n = notice_for(&AlertEvent::LowBattery { percentage: 0, time_to_empty: Some(secs) });
        let expected = format!(
            "Critical level: 0%. Connect the charger. Estimated {:.0} min remaining.",
            secs as f64 / 60.0
        );
        assert_eq!(n.body, expected, "secs {secs}");
    }
}

#[test]
fn negative_percentage_is_signed() {
    let n = notice_for(&AlertEvent::LowBattery { percentage: -250, time_to_empty: None });
    assert_eq!(n.body, "Critical level: -2%. Connect the charger.");
    let n = notice_for(&AlertEvent::LowBattery { percentage: -30, time_to_empty: None });
    assert_eq!(n.body, "Critical level: -0%. Connect the charger.");
    assert_eq!(n.body, format!("Critical level: {:.0}%. Connect the charger.", -0.30f32));
}

#[test]
fn critical_notifications_stay() {
    let desktop = DesktopNotification::new();
    let r = desktop.request("Low Battery", "body", Urgency::Critical);
    assert_eq!(r.summary, "Low Battery");
    assert_eq!(r.body, "body");
    assert_eq!(r.app_name, "battery-assistant");
    assert_eq!(r.icon, "battery");
    assert_eq!(r.urgency, Urgency::Critical);
    assert!(r.persistent);
    let r = desktop.request("Power", "Charger connected", Urgency::Normal);
    assert!(!r.persistent);
    assert!(!desktop.request("t", "b", Urgency::Low).persistent);
}
