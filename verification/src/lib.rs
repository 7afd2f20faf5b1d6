//! Battery assistant: the decisions behind a battery watcher that announces
//! charger changes, low battery and a sufficiently charged battery.
//!
//! Percentages are fixed-point numbers counted in hundredths (`2000` is 20.00 %),
//! instants are nanoseconds on a monotonic clock and waits are seconds or
//! milliseconds, as each item says.
pub mod battery;
pub mod config;
pub mod monitor;
pub mod audio;
pub mod notification;
pub mod alerts;
pub mod clock;
pub mod logging;
pub mod assistant;
