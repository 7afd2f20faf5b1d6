use battery_assistant::config::{Config, PartialConfig};

#[test]
fn uses_defaults_when_fields_missing() {
    let cfg = Config::from_partial(
        PartialConfig { low_threshold: None, high_threshold: None, cooldown_secs: None, volume: None },
        Config::default(),
    );
    assert_eq!(cfg.low_threshold, 2000);
    assert_eq!(cfg.high_threshold, 8000);
    assert_eq!(cfg.cooldown_secs, 60);
    assert_eq!(cfg.volume, 100);
}

#[test]
fn accepts_valid_values() {
    let cfg = Config::from_partial(
        PartialConfig {
            low_threshold: Some(1500),
            high_threshold: Some(9000),
            cooldown_secs: Some(120),
            volume: Some(50),
        },
        Config::default(),
    );
    assert_eq!(
        cfg,
        Config { low_threshold: 1500, high_threshold: 9000, cooldown_secs: 120, volume: 50 }
    );
}

#[test]
fn resets_to_default_when_thresholds_invalid() {
    let defaults = Config::default();
    let cfg = Config::from_partial(
        PartialConfig {
            low_threshold: Some(8500),
            high_threshold: Some(8000),
            cooldown_secs: Some(10),
            volume: None,
        },
        defaults.clone(),
    );
    assert_eq!(cfg.low_threshold, defaults.low_threshold);
    assert_eq!(cfg.high_threshold, defaults.high_threshold);
}

#[test]
fn rejects_low_threshold_below_zero() {
    let defaults = Config::default();
    let cfg = Config::from_partial(
        PartialConfig {
            low_threshold: Some(-500),
            high_threshold: Some(8000),
            cooldown_secs: Some(60),
            volume: None,
        },
        defaults.clone(),
    );
    assert_eq!(cfg.low_threshold, defaults.low_threshold);
}

#[test]
fn rejects_high_threshold_above_100() {
    let defaults = Config::default();
    let cfg = Config::from_partial(
        PartialConfig {
            low_threshold: Some(2000),
            high_threshold: Some(15000),
            cooldown_secs: Some(60),
            volume: None,
        },
        defaults.clone(),
    );
    assert_eq!(cfg.high_threshold, defaults.high_threshold);
}

#[test]
fn clamps_volume() {
    let cfg = Config::from_partial(
        PartialConfig { low_threshold: None, high_threshold: None, cooldown_secs: None, volume: Some(200) },
        Config::default(),
    );
    assert_eq!(cfg.volume, 100);

    let cfg = Config::from_partial(
        PartialConfig { low_threshold: None, high_threshold: None, cooldown_secs: None, volume: Some(-100) },
        Config::default(),
    );
    assert_eq!(cfg.volume, 0);
}

#[test]
fn replaces_zero_cooldown_with_default() {
    let defaults = Config::default();
    let cfg = Config::from_partial(
        PartialConfig {
            low_threshold: Some(2000),
            high_threshold: Some(8000),
            cooldown_secs: Some(0),
            volume: None,
        },
        defaults,
    );
    assert_eq!(cfg.cooldown_secs, 60);
}

// ---- further cases ----

#[test]
fn equal_thresholds_are_invalid() {
    let cfg = Config::from_partial(
        PartialConfig {
            low_threshold: Some(5000),
            high_threshold: Some(5000),
            cooldown_secs: None,
            volume: None,
        },
        Config::default(),
    );
    assert_eq!((cfg.low_threshold, cfg.high_threshold), (2000, 8000));
}

#[test]
fn bounds_of_thresholds_are_accepted() {
    let cfg = Config::from_partial(
        PartialConfig {
            low_threshold: Some(0),
            high_threshold: Some(10000),
            cooldown_secs: Some(1),
            volume: Some(0),
        },
        Config::default(),
    );
    assert_eq!(cfg, Config { low_threshold: 0, high_threshold: 10000, cooldown_secs: 1, volume: 0 });
}

#[test]
fn one_valid_threshold_alone_is_kept() {
    let cfg = Config::from_partial(
        PartialConfig { low_threshold: Some(1000), high_threshold: None, cooldown_secs: None, volume: None },
        Config::default(),
    );
    assert_eq!((cfg.low_threshold, cfg.high_threshold), (1000, 8000));
}
