use super::types::{BatteryData, BatteryState};
use vstd::prelude::*;

verus! {

/// Nanoseconds in one second.
pub const NANOS_PER_SEC: u128 = 1_000_000_000;

/// Thresholds (hundredths of a percent) and cooldown (nanoseconds) of one monitor.
#[derive(Debug, Clone, Copy, PartialEq, Eq, Structural)]
pub struct MonitorConfig {
    pub low_threshold: i64,
    pub high_threshold: i64,
    pub cooldown: u128,
}

impl MonitorConfig {
    /// Builds a configuration whose cooldown lasts `cooldown_secs` seconds.
    pub fn new(low_threshold: i64, high_threshold: i64, cooldown_secs: u64) -> (config: Self)
        ensures
            config.low_threshold == low_threshold,
            config.high_threshold == high_threshold,
            config.cooldown == cooldown_secs * NANOS_PER_SEC,
    {
        MonitorConfig {
            low_threshold,
            high_threshold,
            cooldown: (cooldown_secs as u128) * NANOS_PER_SEC,
        }
    }
}

/// What a monitor asks its caller to announce.
///
/// `percentage` is in hundredths of a percent, the estimates in whole seconds.
#[derive(Debug, Clone, Copy, PartialEq, Eq, Structural)]
pub enum AlertEvent {
    ChargerConnected,
    ChargerDisconnected,
    LowBattery { percentage: i64, time_to_empty: Option<u64> },
    HighBattery { percentage: i64, time_to_full: Option<u64> },
}

/// A low-battery alert is due: the battery discharges at or below the threshold.
pub open spec fn alerts_low(state: BatteryState, percentage: int, threshold: int) -> bool {
    state == BatteryState::Discharging && percentage <= threshold
}

/// A charged-battery alert is due: the battery charges or is full, at or above the threshold.
pub open spec fn alerts_high(state: BatteryState, percentage: int, threshold: int) -> bool {
    (state == BatteryState::Charging || state == BatteryState::Full) && percentage >= threshold
}

/// Time from `earlier` to `later`, zero when `later` comes first.
pub open spec fn elapsed(earlier: u128, later: u128) -> int {
    if later >= earlier {
        later - earlier
    } else {
        0
    }
}

/// No alert was given yet, or at least `cooldown` has passed since the last one.
pub open spec fn cooldown_over(last_alert: Option<u128>, now: u128, cooldown: u128) -> bool {
    match last_alert {
        None => true,
        Some(t) => elapsed(t, now) >= cooldown,
    }
}

/// Some event of the sequence is a low-battery alert.
pub open spec fn has_low_alert(events: Seq<AlertEvent>) -> bool {
    exists|i: int| 0 <= i < events.len() && (#[trigger] events[i]) is LowBattery
}

/// Some event of the sequence is a charged-battery alert.
pub open spec fn has_high_alert(events: Seq<AlertEvent>) -> bool {
    exists|i: int| 0 <= i < events.len() && (#[trigger] events[i]) is HighBattery
}

/// Some event of the sequence announces a charger change.
pub open spec fn has_charger_event(events: Seq<AlertEvent>) -> bool {
    exists|i: int|
        0 <= i < events.len() && ((#[trigger] events[i]) is ChargerConnected
            || events[i] is ChargerDisconnected)
}

/// The state of a monitor, as the contracts speak of it.
pub struct MonitorView {
    pub previous_state: BatteryState,
    pub last_low_alert: Option<u128>,
    pub last_high_alert: Option<u128>,
    pub config: MonitorConfig,
    pub initialized: bool,
}

impl MonitorView {
    /// A monitor that has seen nothing yet.
    pub open spec fn fresh(config: MonitorConfig) -> MonitorView {
        MonitorView {
            previous_state: BatteryState::Unknown,
            last_low_alert: None,
            last_high_alert: None,
            config,
            initialized: false,
        }
    }

    /// The state taken as known at start-up: an unknown state is read from
    /// which estimate the battery gives.
    pub open spec fn initial_state(data: BatteryData) -> BatteryState {
        if data.state == BatteryState::Unknown {
            if data.time_to_full is Some {
                BatteryState::Charging
            } else if data.time_to_empty is Some {
                BatteryState::Discharging
            } else {
                BatteryState::Unknown
            }
        } else {
            data.state
        }
    }

    /// After `initialize`: a level already past a threshold counts as announced at `now`.
    pub open spec fn initialize(self, data: BatteryData, now: u128) -> MonitorView {
        MonitorView {
            previous_state: Self::initial_state(data),
            last_low_alert: if data.percentage <= self.config.low_threshold {
                Some(now)
            } else {
                self.last_low_alert
            },
            last_high_alert: if data.percentage >= self.config.high_threshold {
                Some(now)
            } else {
                self.last_high_alert
            },
            config: self.config,
            initialized: true,
        }
    }

    /// A change of the charger's state: plugging in after discharging (or from an
    /// unknown start) and unplugging after charging or full are announced, and
    /// clear the matching alert's cooldown.
    pub open spec fn state_change(self, new_state: BatteryState) -> (MonitorView, Option<AlertEvent>) {
        if new_state == BatteryState::Charging && (self.previous_state == BatteryState::Discharging
            || self.previous_state == BatteryState::Unknown) {
            (MonitorView { last_low_alert: None, ..self }, Some(AlertEvent::ChargerConnected))
        } else if new_state == BatteryState::Discharging && (self.previous_state
            == BatteryState::Charging || self.previous_state == BatteryState::Full) {
            (MonitorView { last_high_alert: None, ..self }, Some(AlertEvent::ChargerDisconnected))
        } else {
            (self, None)
        }
    }

    /// The level alerts of one reading, each at most once per cooldown.
    pub open spec fn check_levels(self, data: BatteryData, now: u128) -> (MonitorView, Seq<AlertEvent>) {
        let low = alerts_low(data.state, data.percentage as int, self.config.low_threshold as int);
        let low_fires = low && cooldown_over(self.last_low_alert, now, self.config.cooldown);
        let high = alerts_high(
            data.state,
            data.percentage as int,
            self.config.high_threshold as int,
        );
        let high_fires = high && cooldown_over(self.last_high_alert, now, self.config.cooldown);
        let last_low = if low {
            if low_fires {
                Some(now)
            } else {
                self.last_low_alert
            }
        } else if data.state == BatteryState::Charging {
            None
        } else {
            self.last_low_alert
        };
        let last_high = if high {
            if high_fires {
                Some(now)
            } else {
                self.last_high_alert
            }
        } else if data.state == BatteryState::Discharging {
            None
        } else {
            self.last_high_alert
        };
        let low_events = if low_fires {
            seq![AlertEvent::LowBattery { percentage: data.percentage, time_to_empty: data.time_to_empty }]
        } else {
            Seq::<AlertEvent>::empty()
        };
        let high_events = if high_fires {
            seq![AlertEvent::HighBattery { percentage: data.percentage, time_to_full: data.time_to_full }]
        } else {
            Seq::<AlertEvent>::empty()
        };
        (
            MonitorView { last_low_alert: last_low, last_high_alert: last_high, ..self },
            low_events + high_events,
        )
    }

    /// One evaluation cycle: a charger change takes priority; the levels are
    /// checked only when it produced no event. An unknown reading is no change.
    pub open spec fn cycle(self, data: BatteryData, now: u128) -> (MonitorView, Seq<AlertEvent>) {
        if data.state != BatteryState::Unknown && data.state != self.previous_state {
            let changed = self.state_change(data.state);
            let next = MonitorView { previous_state: data.state, ..changed.0 };
            match changed.1 {
                Some(event) => (next, seq![event]),
                None => next.check_levels(data, now),
            }
        } else {
            self.check_levels(data, now)
        }
    }
}

/// Seconds to wait before the next reading: short near a threshold
/// (within 3 percentage points), long in the safe zone.
pub open spec fn sleep_secs(config: MonitorConfig, percentage: int) -> u64 {
    if percentage <= config.low_threshold + 300 || percentage >= config.high_threshold - 300 {
        5
    } else {
        30
    }
}

/// Alert state machine of one battery: takes readings, hands back the events to announce.
#[derive(Debug, Clone, Copy)]
pub struct BatteryMonitor {
    previous_state: BatteryState,
    last_low_alert: Option<u128>,
    last_high_alert: Option<u128>,
    config: MonitorConfig,
    initialized: bool,
}

impl View for BatteryMonitor {
    type V = MonitorView;

    closed spec fn view(&self) -> MonitorView {
        MonitorView {
            previous_state: self.previous_state,
            last_low_alert: self.last_low_alert,
            last_high_alert: self.last_high_alert,
            config: self.config,
            initialized: self.initialized,
        }
    }
}

impl BatteryMonitor {
    pub fn new(config: MonitorConfig) -> (monitor: Self)
        ensures
            monitor@ == MonitorView::fresh(config),
    {
        BatteryMonitor {
            previous_state: BatteryState::Unknown,
            last_low_alert: None,
            last_high_alert: None,
            config,
            initialized: false,
        }
    }

    /// Whether `initialize` was called.
    pub fn is_initialized(&self) -> (r: bool)
        ensures
            r == self@.initialized,
    {
        self.initialized
    }

    /// Takes the first known state; a level already past a threshold counts as
    /// announced at `now`, so that start-up brings no alert before the cooldown.
    pub fn initialize(&mut self, data: &BatteryData, now: u128)
        ensures
            final(self)@ == old(self)@.initialize(*data, now),
    {
        self.previous_state = data.state;
        if self.previous_state == BatteryState::Unknown {
            if data.time_to_full.is_some() {
                self.previous_state = BatteryState::Charging;
            } else if data.time_to_empty.is_some() {
                self.previous_state = BatteryState::Discharging;
            }
        }
        if data.percentage <= self.config.low_threshold {
            self.last_low_alert = Some(now);
        }
        if data.percentage >= self.config.high_threshold {
            self.last_high_alert = Some(now);
        }
        self.initialized = true;
    }

    /// Evaluates one reading taken at `now` and returns the events to announce.
    pub fn process_cycle(&mut self, data: &BatteryData, now: u128) -> (events: Vec<AlertEvent>)
        ensures
            final(self)@ == old(self)@.cycle(*data, now).0,
            events@ == old(self)@.cycle(*data, now).1,
    {
        let mut events: Vec<AlertEvent> = Vec::new();
        let state_changed = data.state != BatteryState::Unknown && data.state
            != self.previous_state;
        if state_changed {
            if let Some(event) = self.handle_state_change(data.state) {
                events.push(event);
            }
            self.previous_state = data.state;
        }
        if events.len() == 0 {
            events = self.check_levels(data, now);
        }
        events
    }

    /// Seconds to wait before the next reading: 5 near a threshold, 30 otherwise.
    pub fn dynamic_sleep(&self, data: &BatteryData) -> (secs: u64)
        ensures
            secs == sleep_secs(self@.config, data.percentage as int),
    {
        let pct = data.percentage as i128;
        let near_low = pct <= self.config.low_threshold as i128 + 300;
        let near_high = pct >= self.config.high_threshold as i128 - 300;
        if near_low || near_high {
            5
        } else {
            30
        }
    }

    /// The state the charger was last seen in.
    pub fn previous_state(&self) -> (state: BatteryState)
        ensures
            state == self@.previous_state,
    {
        self.previous_state
    }

    /// When the last low-battery alert was given (or taken as given).
    pub fn last_low_alert(&self) -> (at: Option<u128>)
        ensures
            at == self@.last_low_alert,
    {
        self.last_low_alert
    }

    /// When the last charged-battery alert was given (or taken as given).
    pub fn last_high_alert(&self) -> (at: Option<u128>)
        ensures
            at == self@.last_high_alert,
    {
        self.last_high_alert
    }

    /// The configuration the monitor works with.
    pub fn config(&self) -> (config: MonitorConfig)
        ensures
            config == self@.config,
    {
        self.config
    }

    fn handle_state_change(&mut self, new_state: BatteryState) -> (event: Option<AlertEvent>)
        ensures
            final(self)@ == old(self)@.state_change(new_state).0,
            event == old(self)@.state_change(new_state).1,
    {
        if new_state == BatteryState::Charging && (self.previous_state == BatteryState::Discharging
            || self.previous_state == BatteryState::Unknown) {
            self.last_low_alert = None;
            Some(AlertEvent::ChargerConnected)
        } else if new_state == BatteryState::Discharging && (self.previous_state
            == BatteryState::Charging || self.previous_state == BatteryState::Full) {
            self.last_high_alert = None;
            Some(AlertEvent::ChargerDisconnected)
        } else {
            None
        }
    }

    fn check_levels(&mut self, data: &BatteryData, now: u128) -> (events: Vec<AlertEvent>)
        ensures
            final(self)@ == old(self)@.check_levels(*data, now).0,
            events@ == old(self)@.check_levels(*data, now).1,
    {
        let mut events: Vec<AlertEvent> = Vec::new();
        if should_alert_low(data.state, data.percentage, self.config.low_threshold) {
            if cooldown_expired(self.last_low_alert, now, self.config.cooldown) {
                events.push(
                    AlertEvent::LowBattery {
                        percentage: data.percentage,
                        time_to_empty: data.time_to_empty,
                    },
                );
                self.last_low_alert = Some(now);
            }
        } else if data.state == BatteryState::Charging {
            self.last_low_alert = None;
        }
        let ghost low_events = events@;
        if should_alert_high(data.state, data.percentage, self.config.high_threshold) {
            if cooldown_expired(self.last_high_alert, now, self.config.cooldown) {
                events.push(
                    AlertEvent::HighBattery {
                        percentage: data.percentage,
                        time_to_full: data.time_to_full,
                    },
                );
                self.last_high_alert = Some(now);
            }
        } else if data.state == BatteryState::Discharging {
            self.last_high_alert = None;
        }
        proof {
            let spec = old(self)@.check_levels(*data, now);
            assert(events@ =~= spec.1);
        }
        events
    }
}

/// What the events of a level check say of the check: a low-battery alert means
/// the level was low, the cooldown was over and the alert is recorded now; the
/// same for a charged-battery alert; no charger change is announced.
pub(crate) proof fn lemma_check_levels_shape(m: MonitorView, data: BatteryData, now: u128)
    ensures
        has_low_alert(m.check_levels(data, now).1) ==> {
            &&& alerts_low(data.state, data.percentage as int, m.config.low_threshold as int)
            &&& cooldown_over(m.last_low_alert, now, m.config.cooldown)
            &&& m.check_levels(data, now).0.last_low_alert == Some(now)
        },
        has_high_alert(m.check_levels(data, now).1) ==> {
            &&& alerts_high(data.state, data.percentage as int, m.config.high_threshold as int)
            &&& cooldown_over(m.last_high_alert, now, m.config.cooldown)
            &&& m.check_levels(data, now).0.last_high_alert == Some(now)
        },
        !has_charger_event(m.check_levels(data, now).1),
        m.check_levels(data, now).0.config == m.config,
        m.check_levels(data, now).0.previous_state == m.previous_state,
        m.check_levels(data, now).0.initialized == m.initialized,
{
    let r = m.check_levels(data, now);
    if has_low_alert(r.1) {
        let i = choose|i: int| 0 <= i < r.1.len() && (#[trigger] r.1[i]) is LowBattery;
        assert(r.1[i] is LowBattery);
    }
    if has_high_alert(r.1) {
        let i = choose|i: int| 0 <= i < r.1.len() && (#[trigger] r.1[i]) is HighBattery;
        assert(r.1[i] is HighBattery);
    }
    if has_charger_event(r.1) {
        let i = choose|i: int|
            0 <= i < r.1.len() && ((#[trigger] r.1[i]) is ChargerConnected
                || r.1[i] is ChargerDisconnected);
        assert(r.1[i] is ChargerConnected || r.1[i] is ChargerDisconnected);
    }
}

/// What the events of a cycle say of the cycle (see `lemma_check_levels_shape`),
/// and that a charger change is announced alone and clears its cooldown.
proof fn lemma_cycle_shape(m: MonitorView, data: BatteryData, now: u128)
    ensures
        has_low_alert(m.cycle(data, now).1) ==> {
            &&& data.state == BatteryState::Discharging
            &&& cooldown_over(m.last_low_alert, now, m.config.cooldown)
            &&& m.cycle(data, now).0.last_low_alert == Some(now)
        },
        has_high_alert(m.cycle(data, now).1) ==> {
            &&& (data.state == BatteryState::Charging || data.state == BatteryState::Full)
            &&& cooldown_over(m.last_high_alert, now, m.config.cooldown)
            &&& m.cycle(data, now).0.last_high_alert == Some(now)
        },
        has_charger_event(m.cycle(data, now).1) ==> m.cycle(data, now).1.len() == 1
            && data.state != BatteryState::Unknown,
        m.cycle(data, now).1 == seq![AlertEvent::ChargerConnected] ==> m.cycle(
            data,
            now,
        ).0.last_low_alert is None,
        m.cycle(data, now).1 == seq![AlertEvent::ChargerDisconnected] ==> m.cycle(
            data,
            now,
        ).0.last_high_alert is None,
        m.cycle(data, now).0.config == m.config,
        m.cycle(data, now).0.initialized == m.initialized,
        data.state == BatteryState::Unknown ==> m.cycle(data, now).0.previous_state
            == m.previous_state,
{
    let r = m.cycle(data, now);
    if data.state != BatteryState::Unknown && data.state != m.previous_state {
        let changed = m.state_change(data.state);
        let next = MonitorView { previous_state: data.state, ..changed.0 };
        match changed.1 {
            Some(event) => {
                assert(r.1[0] == event);
                assert(!has_low_alert(r.1));
                assert(!has_high_alert(r.1));
            },
            None => {
                lemma_check_levels_shape(next, data, now);
                if r.1 == seq![AlertEvent::ChargerConnected] || r.1 == seq![
                    AlertEvent::ChargerDisconnected,
                ] {
                    assert(r.1[0] is ChargerConnected || r.1[0] is ChargerDisconnected);
                }
            },
        }
    } else {
        lemma_check_levels_shape(m, data, now);
        if r.1 == seq![AlertEvent::ChargerConnected] || r.1 == seq![
            AlertEvent::ChargerDisconnected,
        ] {
            assert(r.1[0] is ChargerConnected || r.1[0] is ChargerDisconnected);
        }
    }
}

/// The cycles of `steps`, each a reading and its instant, taken in order.
pub open spec fn run_cycles(m: MonitorView, steps: Seq<(BatteryData, u128)>) -> MonitorView
    decreases steps.len(),
{
    if steps.len() == 0 {
        m
    } else {
        run_cycles(m, steps.drop_last()).cycle(steps.last().0, steps.last().1).0
    }
}

/// The recorded low-battery alert is less than a cooldown old at `t`.
pub open spec fn low_alert_cooling(m: MonitorView, t: u128) -> bool {
    m.last_low_alert is Some && elapsed(m.last_low_alert->0, t) < m.config.cooldown
}

/// The recorded charged-battery alert is less than a cooldown old at `t`.
pub open spec fn high_alert_cooling(m: MonitorView, t: u128) -> bool {
    m.last_high_alert is Some && elapsed(m.last_high_alert->0, t) < m.config.cooldown
}

/// No reading of `steps` is charging.
pub open spec fn none_charging(steps: Seq<(BatteryData, u128)>) -> bool {
    forall|i: int| 0 <= i < steps.len() ==> (#[trigger] steps[i]).0.state != BatteryState::Charging
}

/// No reading of `steps` is discharging.
pub open spec fn none_discharging(steps: Seq<(BatteryData, u128)>) -> bool {
    forall|i: int|
        0 <= i < steps.len() ==> (#[trigger] steps[i]).0.state != BatteryState::Discharging
}

/// While the last low-battery alert is less than a cooldown old, a cycle gives no
/// low-battery alert, whatever it reads.
pub proof fn lemma_no_low_alert_while_cooling(m: MonitorView, data: BatteryData, now: u128)
    requires
        low_alert_cooling(m, now),
    ensures
        !has_low_alert(m.cycle(data, now).1),
{
    lemma_cycle_shape(m, data, now);
}

/// While the last charged-battery alert is less than a cooldown old, a cycle gives
/// no charged-battery alert, whatever it reads.
pub proof fn lemma_no_high_alert_while_cooling(m: MonitorView, data: BatteryData, now: u128)
    requires
        high_alert_cooling(m, now),
    ensures
        !has_high_alert(m.cycle(data, now).1),
{
    lemma_cycle_shape(m, data, now);
}

/// A cycle that reads no charging keeps a low-battery alert that is less than a
/// cooldown old at `t` that way (an alert it gives anew comes after `t`).
proof fn lemma_cycle_keeps_low_cooling(m: MonitorView, data: BatteryData, now: u128, t: u128)
    requires
        low_alert_cooling(m, t),
        data.state != BatteryState::Charging,
    ensures
        low_alert_cooling(m.cycle(data, now).0, t),
{
    lemma_cycle_shape(m, data, now);
    let r = m.cycle(data, now);
    if data.state != BatteryState::Unknown && data.state != m.previous_state {
        let changed = m.state_change(data.state);
        let next = MonitorView { previous_state: data.state, ..changed.0 };
        if changed.1 is None {
            lemma_check_levels_shape(next, data, now);
        }
    } else {
        lemma_check_levels_shape(m, data, now);
    }
}

/// A cycle that reads no discharging keeps a charged-battery alert that is less
/// than a cooldown old at `t` that way.
proof fn lemma_cycle_keeps_high_cooling(m: MonitorView, data: BatteryData, now: u128, t: u128)
    requires
        high_alert_cooling(m, t),
        data.state != BatteryState::Discharging,
    ensures
        high_alert_cooling(m.cycle(data, now).0, t),
{
    lemma_cycle_shape(m, data, now);
    if data.state != BatteryState::Unknown && data.state != m.previous_state {
        let changed = m.state_change(data.state);
        let next = MonitorView { previous_state: data.state, ..changed.0 };
        if changed.1 is None {
            lemma_check_levels_shape(next, data, now);
        }
    } else {
        lemma_check_levels_shape(m, data, now);
    }
}

/// Cycles reading no charging keep a recent low-battery alert recent.
proof fn lemma_cycles_keep_low_cooling(m: MonitorView, steps: Seq<(BatteryData, u128)>, t: u128)
    requires
        low_alert_cooling(m, t),
        none_charging(steps),
    ensures
        low_alert_cooling(run_cycles(m, steps), t),
    decreases steps.len(),
{
    if steps.len() > 0 {
        let rest = steps.drop_last();
        assert forall|i: int| 0 <= i < rest.len() implies (#[trigger] rest[i]).0.state
            != BatteryState::Charging by {
            assert(rest[i] == steps[i]);
        }
        lemma_cycles_keep_low_cooling(m, rest, t);
        assert(steps[steps.len() - 1] == steps.last());
        lemma_cycle_keeps_low_cooling(run_cycles(m, rest), steps.last().0, steps.last().1, t);
    }
}

/// Cycles reading no discharging keep a recent charged-battery alert recent.
proof fn lemma_cycles_keep_high_cooling(m: MonitorView, steps: Seq<(BatteryData, u128)>, t: u128)
    requires
        high_alert_cooling(m, t),
        none_discharging(steps),
    ensures
        high_alert_cooling(run_cycles(m, steps), t),
    decreases steps.len(),
{
    if steps.len() > 0 {
        let rest = steps.drop_last();
        assert forall|i: int| 0 <= i < rest.len() implies (#[trigger] rest[i]).0.state
            != BatteryState::Discharging by {
            assert(rest[i] == steps[i]);
        }
        lemma_cycles_keep_high_cooling(m, rest, t);
        assert(steps[steps.len() - 1] == steps.last());
        lemma_cycle_keeps_high_cooling(run_cycles(m, rest), steps.last().0, steps.last().1, t);
    }
}

/// A cycle that gives a low-battery alert records it at the cycle's instant.
pub proof fn lemma_low_alert_is_recorded(m: MonitorView, data: BatteryData, now: u128)
    ensures
        has_low_alert(m.cycle(data, now).1) ==> m.cycle(data, now).0.last_low_alert == Some(now),
        m.cycle(data, now).0.config == m.config,
{
    lemma_cycle_shape(m, data, now);
}

/// A cycle that gives a charged-battery alert records it at the cycle's instant.
pub proof fn lemma_high_alert_is_recorded(m: MonitorView, data: BatteryData, now: u128)
    ensures
        has_high_alert(m.cycle(data, now).1) ==> m.cycle(data, now).0.last_high_alert == Some(now),
        m.cycle(data, now).0.config == m.config,
{
    lemma_cycle_shape(m, data, now);
}

/// Cooldown: after a cycle at `t1` that gives a low-battery alert, and any cycles
/// in between that read no charging, a cycle at `t2` gives no low-battery alert
/// before the cooldown has passed since `t1`.
pub proof fn lemma_low_alert_not_repeated_within_cooldown(
    m: MonitorView,
    first: BatteryData,
    t1: u128,
    between: Seq<(BatteryData, u128)>,
    second: BatteryData,
    t2: u128,
)
    requires
        has_low_alert(m.cycle(first, t1).1),
        none_charging(between),
        elapsed(t1, t2) < m.config.cooldown,
    ensures
        !has_low_alert(run_cycles(m.cycle(first, t1).0, between).cycle(second, t2).1),
{
    lemma_cycle_shape(m, first, t1);
    lemma_cycles_keep_low_cooling(m.cycle(first, t1).0, between, t2);
    lemma_no_low_alert_while_cooling(run_cycles(m.cycle(first, t1).0, between), second, t2);
}

/// Cooldown: after a cycle at `t1` that gives a charged-battery alert, and any
/// cycles in between that read no discharging, a cycle at `t2` gives no
/// charged-battery alert before the cooldown has passed since `t1`.
pub proof fn lemma_high_alert_not_repeated_within_cooldown(
    m: MonitorView,
    first: BatteryData,
    t1: u128,
    between: Seq<(BatteryData, u128)>,
    second: BatteryData,
    t2: u128,
)
    requires
        has_high_alert(m.cycle(first, t1).1),
        none_discharging(between),
        elapsed(t1, t2) < m.config.cooldown,
    ensures
        !has_high_alert(run_cycles(m.cycle(first, t1).0, between).cycle(second, t2).1),
{
    lemma_cycle_shape(m, first, t1);
    lemma_cycles_keep_high_cooling(m.cycle(first, t1).0, between, t2);
    lemma_no_high_alert_while_cooling(run_cycles(m.cycle(first, t1).0, between), second, t2);
}

/// Start-up: a battery at or below the low threshold when the monitor is
/// initialized at `t0` gives no low-battery alert before the cooldown has passed,
/// as long as no reading in between is charging.
pub proof fn lemma_startup_suppresses_low_alert(
    m: MonitorView,
    first: BatteryData,
    t0: u128,
    between: Seq<(BatteryData, u128)>,
    next: BatteryData,
    t1: u128,
)
    requires
        first.percentage <= m.config.low_threshold,
        none_charging(between),
        elapsed(t0, t1) < m.config.cooldown,
    ensures
        !has_low_alert(run_cycles(m.initialize(first, t0), between).cycle(next, t1).1),
{
    lemma_cycles_keep_low_cooling(m.initialize(first, t0), between, t1);
    lemma_no_low_alert_while_cooling(run_cycles(m.initialize(first, t0), between), next, t1);
}

/// Start-up: a battery at or above the high threshold when the monitor is
/// initialized at `t0` gives no charged-battery alert before the cooldown has
/// passed, as long as no reading in between is discharging.
pub proof fn lemma_startup_suppresses_high_alert(
    m: MonitorView,
    first: BatteryData,
    t0: u128,
    between: Seq<(BatteryData, u128)>,
    next: BatteryData,
    t1: u128,
)
    requires
        first.percentage >= m.config.high_threshold,
        none_discharging(between),
        elapsed(t0, t1) < m.config.cooldown,
    ensures
        !has_high_alert(run_cycles(m.initialize(first, t0), between).cycle(next, t1).1),
{
    lemma_cycles_keep_high_cooling(m.initialize(first, t0), between, t1);
    lemma_no_high_alert_while_cooling(run_cycles(m.initialize(first, t0), between), next, t1);
}

/// A cycle never asks for a low-battery and a charged-battery alert at once.
pub proof fn lemma_never_low_and_high(m: MonitorView, data: BatteryData, now: u128)
    ensures
        !(has_low_alert(m.cycle(data, now).1) && has_high_alert(m.cycle(data, now).1)),
{
    lemma_cycle_shape(m, data, now);
}

/// Priority: a cycle that announces a charger change announces nothing else.
pub proof fn lemma_charger_event_comes_alone(m: MonitorView, data: BatteryData, now: u128)
    ensures
        has_charger_event(m.cycle(data, now).1) ==> m.cycle(data, now).1.len() == 1,
{
    lemma_cycle_shape(m, data, now);
}

/// An unknown reading is no change: the state last seen stays, and no charger
/// change is announced.
pub proof fn lemma_unknown_reading_changes_no_state(m: MonitorView, data: BatteryData, now: u128)
    requires
        data.state == BatteryState::Unknown,
    ensures
        m.cycle(data, now).0.previous_state == m.previous_state,
        !has_charger_event(m.cycle(data, now).1),
{
    lemma_cycle_shape(m, data, now);
}

/// Plugging the charger in clears the low-battery cooldown; unplugging it clears
/// the charged-battery cooldown.
pub proof fn lemma_charger_change_clears_cooldown(m: MonitorView, data: BatteryData, now: u128)
    ensures
        m.cycle(data, now).1 == seq![AlertEvent::ChargerConnected] ==> m.cycle(
            data,
            now,
        ).0.last_low_alert is None,
        m.cycle(data, now).1 == seq![AlertEvent::ChargerDisconnected] ==> m.cycle(
            data,
            now,
        ).0.last_high_alert is None,
{
    lemma_cycle_shape(m, data, now);
}

/// Charger changes are announced: plugging in after discharging or an unknown
/// state gives exactly the connection event and clears the low-battery
/// cooldown; unplugging after charging or full gives exactly the disconnection
/// event and clears the charged-battery cooldown. The new state is remembered.
pub proof fn lemma_charger_changes_are_announced(m: MonitorView, data: BatteryData, now: u128)
    ensures
        (m.previous_state == BatteryState::Discharging || m.previous_state
            == BatteryState::Unknown) && data.state == BatteryState::Charging ==> {
            &&& m.cycle(data, now).1 == seq![AlertEvent::ChargerConnected]
            &&& m.cycle(data, now).0.last_low_alert is None
            &&& m.cycle(data, now).0.last_high_alert == m.last_high_alert
            &&& m.cycle(data, now).0.previous_state == BatteryState::Charging
        },
        (m.previous_state == BatteryState::Charging || m.previous_state == BatteryState::Full)
            && data.state == BatteryState::Discharging ==> {
            &&& m.cycle(data, now).1 == seq![AlertEvent::ChargerDisconnected]
            &&& m.cycle(data, now).0.last_high_alert is None
            &&& m.cycle(data, now).0.last_low_alert == m.last_low_alert
            &&& m.cycle(data, now).0.previous_state == BatteryState::Discharging
        },
{
}

/// Every level alert carries the reading it was given for: a low-battery alert
/// its percentage and time to empty, a charged-battery alert its percentage and
/// time to full. A low-battery alert needs a discharging reading at or below the
/// low threshold, a charged-battery alert a charging or full reading at or above
/// the high threshold.
pub proof fn lemma_alerts_carry_the_reading(m: MonitorView, data: BatteryData, now: u128)
    ensures
        forall|i: int|
            0 <= i < m.cycle(data, now).1.len() ==> match #[trigger] m.cycle(data, now).1[i] {
                AlertEvent::LowBattery { percentage, time_to_empty } => {
                    &&& percentage == data.percentage
                    &&& time_to_empty == data.time_to_empty
                    &&& data.state == BatteryState::Discharging
                    &&& data.percentage <= m.config.low_threshold
                },
                AlertEvent::HighBattery { percentage, time_to_full } => {
                    &&& percentage == data.percentage
                    &&& time_to_full == data.time_to_full
                    &&& (data.state == BatteryState::Charging || data.state == BatteryState::Full)
                    &&& data.percentage >= m.config.high_threshold
                },
                _ => true,
            },
{
    let r = m.cycle(data, now);
    assert forall|i: int| 0 <= i < r.1.len() implies match #[trigger] r.1[i] {
        AlertEvent::LowBattery { percentage, time_to_empty } => {
            &&& percentage == data.percentage
            &&& time_to_empty == data.time_to_empty
            &&& data.state == BatteryState::Discharging
            &&& data.percentage <= m.config.low_threshold
        },
        AlertEvent::HighBattery { percentage, time_to_full } => {
            &&& percentage == data.percentage
            &&& time_to_full == data.time_to_full
            &&& (data.state == BatteryState::Charging || data.state == BatteryState::Full)
            &&& data.percentage >= m.config.high_threshold
        },
        _ => true,
    } by {
        if data.state != BatteryState::Unknown && data.state != m.previous_state {
            let changed = m.state_change(data.state);
            let next = MonitorView { previous_state: data.state, ..changed.0 };
            if changed.1 is None {
                lemma_level_events_carry_the_reading(next, data, now, i);
            }
        } else {
            lemma_level_events_carry_the_reading(m, data, now, i);
        }
    }
}

pub(crate) proof fn lemma_level_events_carry_the_reading(m: MonitorView, data: BatteryData, now: u128, i: int)
    requires
        0 <= i < m.check_levels(data, now).1.len(),
    ensures
        match m.check_levels(data, now).1[i] {
            AlertEvent::LowBattery { percentage, time_to_empty } => {
                &&& percentage == data.percentage
                &&& time_to_empty == data.time_to_empty
                &&& data.state == BatteryState::Discharging
                &&& data.percentage <= m.config.low_threshold
            },
            AlertEvent::HighBattery { percentage, time_to_full } => {
                &&& percentage == data.percentage
                &&& time_to_full == data.time_to_full
                &&& (data.state == BatteryState::Charging || data.state == BatteryState::Full)
                &&& data.percentage >= m.config.high_threshold
            },
            _ => false,
        },
{
}

/// A low-battery alert is given when it is due: a discharging battery that was
/// already discharging, at or below the low threshold, with no low-battery alert
/// yet or the last one at least a cooldown ago, gives exactly that alert with the
/// reading's percentage and time to empty, recorded at `now`.
pub proof fn lemma_low_alert_given_when_due(m: MonitorView, data: BatteryData, now: u128)
    requires
        data.state == BatteryState::Discharging,
        m.previous_state == BatteryState::Discharging,
        data.percentage <= m.config.low_threshold,
        m.last_low_alert matches Some(t) ==> now >= t && now - t >= m.config.cooldown,
    ensures
        m.cycle(data, now).1 == seq![
            AlertEvent::LowBattery { percentage: data.percentage, time_to_empty: data.time_to_empty },
        ],
        m.cycle(data, now).0.last_low_alert == Some(now),
{
    assert(m.cycle(data, now).1 =~= seq![
        AlertEvent::LowBattery { percentage: data.percentage, time_to_empty: data.time_to_empty },
    ]);
}

/// A charged-battery alert is given when it is due: a battery charging (or
/// full) as before, at or above the high threshold, with no charged-battery
/// alert yet or the last one at least a cooldown ago, gives exactly that alert
/// with the reading's percentage and time to full, recorded at `now`.
pub proof fn lemma_high_alert_given_when_due(m: MonitorView, data: BatteryData, now: u128)
    requires
        data.state == BatteryState::Charging || data.state == BatteryState::Full,
        m.previous_state == data.state,
        data.percentage >= m.config.high_threshold,
        m.last_high_alert matches Some(t) ==> now >= t && now - t >= m.config.cooldown,
    ensures
        m.cycle(data, now).1 == seq![
            AlertEvent::HighBattery { percentage: data.percentage, time_to_full: data.time_to_full },
        ],
        m.cycle(data, now).0.last_high_alert == Some(now),
{
    assert(m.cycle(data, now).1 =~= seq![
        AlertEvent::HighBattery { percentage: data.percentage, time_to_full: data.time_to_full },
    ]);
}

/// The wait of one battery: 5 seconds at or below 3 points above the low
/// threshold, or at or above 3 points below the high threshold (past a threshold
/// included); 30 seconds otherwise.
pub proof fn lemma_sleep_near_thresholds(config: MonitorConfig, percentage: int)
    ensures
        percentage <= config.low_threshold + 300 || percentage >= config.high_threshold - 300
            ==> sleep_secs(config, percentage) == 5,
        config.low_threshold + 300 < percentage < config.high_threshold - 300 ==> sleep_secs(
            config,
            percentage,
        ) == 30,
{
}

/// A charging reading always clears the low-battery cooldown, and a discharging
/// reading always clears the charged-battery cooldown, announced or not.
pub proof fn lemma_reading_clears_opposite_cooldown(m: MonitorView, data: BatteryData, now: u128)
    ensures
        data.state == BatteryState::Charging ==> m.cycle(data, now).0.last_low_alert is None,
        data.state == BatteryState::Discharging ==> m.cycle(data, now).0.last_high_alert is None,
{
}

/// Initialization: a known state is taken as it reads; an unknown one is taken
/// as charging when the battery gives a time to full, else as discharging when
/// it gives a time to empty, else stays unknown. A level at or below the low
/// threshold (at or above the high one) counts as announced at `now`; otherwise
/// the record is left as it was. The thresholds and cooldown do not change.
pub proof fn lemma_initialize_effects(m: MonitorView, data: BatteryData, now: u128)
    ensures
        data.state != BatteryState::Unknown ==> m.initialize(data, now).previous_state
            == data.state,
        data.state == BatteryState::Unknown && data.time_to_full is Some ==> m.initialize(
            data,
            now,
        ).previous_state == BatteryState::Charging,
        data.state == BatteryState::Unknown && data.time_to_full is None
            && data.time_to_empty is Some ==> m.initialize(data, now).previous_state
            == BatteryState::Discharging,
        data.state == BatteryState::Unknown && data.time_to_full is None
            && data.time_to_empty is None ==> m.initialize(data, now).previous_state
            == BatteryState::Unknown,
        data.percentage <= m.config.low_threshold ==> m.initialize(data, now).last_low_alert
            == Some(now),
        data.percentage > m.config.low_threshold ==> m.initialize(data, now).last_low_alert
            == m.last_low_alert,
        data.percentage >= m.config.high_threshold ==> m.initialize(data, now).last_high_alert
            == Some(now),
        data.percentage < m.config.high_threshold ==> m.initialize(data, now).last_high_alert
            == m.last_high_alert,
        m.initialize(data, now).initialized,
        m.initialize(data, now).config == m.config,
{
}

/// A monitor's first reading is silent: initialized with it and then evaluated
/// at the same instant, it gives no event (the cooldown being non-zero).
pub proof fn lemma_first_reading_is_silent(m: MonitorView, data: BatteryData, now: u128)
    requires
        m.config.cooldown > 0,
    ensures
        m.initialize(data, now).cycle(data, now).1.len() == 0,
{
    let i = m.initialize(data, now);
    lemma_cycle_shape(i, data, now);
    assert(i.cycle(data, now).1 =~= Seq::<AlertEvent>::empty());
}

/// `true` when the battery discharges and its percentage is at or below the threshold.
pub fn should_alert_low(state: BatteryState, percentage: i64, threshold: i64) -> (r: bool)
    ensures
        r == alerts_low(state, percentage as int, threshold as int),
{
    state == BatteryState::Discharging && percentage <= threshold
}

/// `true` when the battery charges or is full and its percentage is at or above the threshold.
pub fn should_alert_high(state: BatteryState, percentage: i64, threshold: i64) -> (r: bool)
    ensures
        r == alerts_high(state, percentage as int, threshold as int),
{
    (state == BatteryState::Charging || state == BatteryState::Full) && percentage >= threshold
}

/// `true` when no alert was given yet or `cooldown` has passed since `last_alert`.
pub fn cooldown_expired(last_alert: Option<u128>, now: u128, cooldown: u128) -> (r: bool)
    ensures
        r == cooldown_over(last_alert, now, cooldown),
{
    match last_alert {
        None => true,
        Some(instant) => now.saturating_sub(instant) >= cooldown,
    }
}

} // verus!
