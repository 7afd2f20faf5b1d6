//! Configuration values and their validation.
use vstd::prelude::*;

verus! {

/// The whole configuration of the assistant.
///
/// Thresholds are hundredths of a percent (`2000` is 20.00 %), the volume is in
/// hundredths of full scale (`100` is full volume).
#[derive(Debug, Clone, Copy, PartialEq, Eq, Structural)]
pub struct Config {
    /// Lower threshold for the low-battery alert (0..=10000).
    pub low_threshold: i64,
    /// Upper threshold for the charged-battery alert (0..=10000).
    pub high_threshold: i64,
    /// Seconds between two alerts of the same kind.
    pub cooldown_secs: u64,
    /// Audio volume, 0 (silence) to 100 (full).
    pub volume: i64,
}

/// A configuration where any field may be missing, as read from a file.
#[derive(Debug, Clone, Copy, PartialEq, Eq, Structural)]
pub struct PartialConfig {
    pub low_threshold: Option<i64>,
    pub high_threshold: Option<i64>,
    pub cooldown_secs: Option<u64>,
    pub volume: Option<i64>,
}

/// The default configuration: 20 %, 80 %, 60 s, full volume.
pub open spec fn default_config() -> Config {
    Config { low_threshold: 2000, high_threshold: 8000, cooldown_secs: 60, volume: 100 }
}

/// Thresholds lie in 0..=100 % and the low one is below the high one.
pub open spec fn thresholds_valid(low: int, high: int) -> bool {
    0 <= low <= 10000 && 0 <= high <= 10000 && low < high
}

/// A configuration the assistant can run with.
pub open spec fn config_valid(c: Config) -> bool {
    &&& thresholds_valid(c.low_threshold as int, c.high_threshold as int)
    &&& c.cooldown_secs > 0
    &&& 0 <= c.volume <= 100
}

pub open spec fn or_default<T>(value: Option<T>, default: T) -> T {
    match value {
        Some(v) => v,
        None => default,
    }
}

/// `value` brought into `lo..=hi`.
pub open spec fn clamped(value: int, lo: int, hi: int) -> int {
    if value < lo {
        lo
    } else if value > hi {
        hi
    } else {
        value
    }
}

/// The configuration made from `partial` over `defaults`: missing fields take the
/// default; invalid thresholds are both replaced by the defaults; a zero cooldown
/// takes the default; the volume is clamped to 0..=100.
pub open spec fn merged_config(partial: PartialConfig, defaults: Config) -> Config {
    let low = or_default(partial.low_threshold, defaults.low_threshold);
    let high = or_default(partial.high_threshold, defaults.high_threshold);
    let cooldown = or_default(partial.cooldown_secs, defaults.cooldown_secs);
    let volume = or_default(partial.volume, defaults.volume);
    let valid = thresholds_valid(low as int, high as int);
    Config {
        low_threshold: if valid {
            low
        } else {
            defaults.low_threshold
        },
        high_threshold: if valid {
            high
        } else {
            defaults.high_threshold
        },
        cooldown_secs: if cooldown == 0 {
            defaults.cooldown_secs
        } else {
            cooldown
        },
        volume: clamped(volume as int, 0, 100) as i64,
    }
}

/// The partial configuration that gives every field of `c`.
pub open spec fn complete_partial(c: Config) -> PartialConfig {
    PartialConfig {
        low_threshold: Some(c.low_threshold),
        high_threshold: Some(c.high_threshold),
        cooldown_secs: Some(c.cooldown_secs),
        volume: Some(c.volume),
    }
}

impl Default for Config {
    fn default() -> (c: Self)
        ensures
            c == default_config(),
    {
        Config { low_threshold: 2000, high_threshold: 8000, cooldown_secs: 60, volume: 100 }
    }
}

impl Config {
    /// Combines the values given with the defaults and validates their ranges.
    pub fn from_partial(partial: PartialConfig, defaults: Config) -> (cfg: Config)
        ensures
            cfg == merged_config(partial, defaults),
    {
        let mut cfg = Config {
            low_threshold: match partial.low_threshold {
                Some(v) => v,
                None => defaults.low_threshold,
            },
            high_threshold: match partial.high_threshold {
                Some(v) => v,
                None => defaults.high_threshold,
            },
            cooldown_secs: match partial.cooldown_secs {
                Some(v) => v,
                None => defaults.cooldown_secs,
            },
            volume: match partial.volume {
                Some(v) => v,
                None => defaults.volume,
            },
        };
        let valid_range = cfg.low_threshold >= 0 && cfg.low_threshold <= 10000
            && cfg.high_threshold >= 0 && cfg.high_threshold <= 10000 && cfg.low_threshold
            < cfg.high_threshold;
        if !valid_range {
            cfg.low_threshold = defaults.low_threshold;
            cfg.high_threshold = defaults.high_threshold;
        }
        if cfg.cooldown_secs == 0 {
            cfg.cooldown_secs = defaults.cooldown_secs;
        }
        if cfg.volume < 0 {
            cfg.volume = 0;
        } else if cfg.volume > 100 {
            cfg.volume = 100;
        }
        cfg
    }
}

/// Whatever the file holds, the configuration made over valid defaults is valid.
pub proof fn lemma_merged_config_is_valid(partial: PartialConfig, defaults: Config)
    requires
        config_valid(defaults),
    ensures
        config_valid(merged_config(partial, defaults)),
{
}

/// A file that gives a valid configuration in full is taken as it is.
pub proof fn lemma_valid_config_is_kept(c: Config, defaults: Config)
    requires
        config_valid(c),
    ensures
        merged_config(complete_partial(c), defaults) == c,
{
}

/// Each field is merged on its own: a cooldown given and non-zero is kept, a
/// zero or missing one takes the default; a volume given is clamped to 0..=100,
/// a missing one is the default clamped; the thresholds given (or defaulted) are
/// kept when both lie in 0..=10000 with low below high, otherwise both are the
/// defaults. No field depends on another field's validity but the two thresholds.
pub proof fn lemma_fields_merged_independently(partial: PartialConfig, defaults: Config)
    ensures
        partial.cooldown_secs matches Some(c) ==> (c > 0 ==> merged_config(
            partial,
            defaults,
        ).cooldown_secs == c),
        partial.cooldown_secs == Some(0u64) ==> merged_config(partial, defaults).cooldown_secs
            == defaults.cooldown_secs,
        partial.cooldown_secs is None ==> merged_config(partial, defaults).cooldown_secs
            == defaults.cooldown_secs,
        partial.volume matches Some(v) ==> merged_config(partial, defaults).volume == (if v < 0 {
            0
        } else if v > 100 {
            100
        } else {
            v
        }),
        partial.volume is None ==> merged_config(partial, defaults).volume == (if defaults.volume
            < 0 {
            0
        } else if defaults.volume > 100 {
            100
        } else {
            defaults.volume
        }),
        ({
            let low = match partial.low_threshold {
                Some(v) => v,
                None => defaults.low_threshold,
            };
            let high = match partial.high_threshold {
                Some(v) => v,
                None => defaults.high_threshold,
            };
            let result = merged_config(partial, defaults);
            if 0 <= low && low <= 10000 && 0 <= high && high <= 10000 && low < high {
                result.low_threshold == low && result.high_threshold == high
            } else {
                result.low_threshold == defaults.low_threshold && result.high_threshold
                    == defaults.high_threshold
            }
        }),
{
}

/// The defaults are valid.
pub proof fn lemma_default_config_is_valid()
    ensures
        config_valid(default_config()),
{
}

} // verus!
