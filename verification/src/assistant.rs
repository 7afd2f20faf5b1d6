//! One round of polling over all batteries, and the schedule of the rounds.
use crate::battery::monitor::{
    lemma_first_reading_is_silent, sleep_secs, AlertEvent, BatteryMonitor, MonitorConfig,
    MonitorView,
};
use crate::battery::service::BatteryService;
use crate::battery::types::{BatteryData, BatteryState};
use crate::clock::MonotonicClock;
use vstd::prelude::*;

verus! {

/// Wait between two readings for some ticks after the power source changed.
pub const FAST_POLL_INTERVAL_MS: u64 = 400;

/// Number of quick readings after the power source changed.
pub const FAST_POLL_TICKS: u32 = 10;

/// Wait when no battery is present or they cannot be listed.
pub const NO_BATTERY_POLL_SECS: u64 = 60;

/// Longest wait while batteries are present (all far from the thresholds).
pub const SAFE_INTERVAL_SECS: u64 = 30;

/// What one round of polling asks the caller to do.
pub struct PollOutcome {
    /// Seconds to wait before the next round.
    pub sleep_secs: u64,
    /// Events to announce, battery by battery in order.
    pub events: Vec<AlertEvent>,
    /// Warn that no battery is present (said once until batteries come back).
    pub warn_no_batteries: bool,
    /// Why the batteries could not be listed.
    pub failure: Option<String>,
}

pub struct PollView {
    pub sleep_secs: u64,
    pub events: Seq<AlertEvent>,
    pub warn_no_batteries: bool,
    pub failure: Option<Seq<char>>,
}

impl View for PollOutcome {
    type V = PollView;

    open spec fn view(&self) -> PollView {
        PollView {
            sleep_secs: self.sleep_secs,
            events: self.events@,
            warn_no_batteries: self.warn_no_batteries,
            failure: match self.failure {
                Some(e) => Some(e@),
                None => None,
            },
        }
    }
}

pub open spec fn readings_view(readings: Result<Vec<BatteryData>, String>) -> Result<
    Seq<BatteryData>,
    Seq<char>,
> {
    match readings {
        Ok(batteries) => Ok(batteries@),
        Err(e) => Err(e@),
    }
}

pub open spec fn monitor_views(monitors: Seq<BatteryMonitor>) -> Seq<MonitorView> {
    monitors.map_values(|m: BatteryMonitor| m@)
}

/// Exactly `count` monitors: the first ones kept, fresh ones added.
pub open spec fn resized(monitors: Seq<MonitorView>, count: nat, config: MonitorConfig) -> Seq<
    MonitorView,
> {
    Seq::new(
        count,
        |i: int|
            if i < monitors.len() {
                monitors[i]
            } else {
                MonitorView::fresh(config)
            },
    )
}

/// One battery's turn: a monitor that has seen nothing is initialized with the
/// reading first, then the reading is evaluated.
pub open spec fn battery_step(m: MonitorView, data: BatteryData, now: u128) -> (
    MonitorView,
    Seq<AlertEvent>,
) {
    let ready = if m.initialized {
        m
    } else {
        m.initialize(data, now)
    };
    ready.cycle(data, now)
}

/// The monitors after every battery's turn.
pub open spec fn stepped(monitors: Seq<MonitorView>, batteries: Seq<BatteryData>, now: u128) -> Seq<
    MonitorView,
> {
    Seq::new(batteries.len(), |i: int| battery_step(monitors[i], batteries[i], now).0)
}

/// The events of all batteries' turns, battery by battery.
pub open spec fn poll_events(
    monitors: Seq<MonitorView>,
    batteries: Seq<BatteryData>,
    now: u128,
) -> Seq<AlertEvent>
    decreases batteries.len(),
{
    if batteries.len() == 0 {
        Seq::empty()
    } else {
        let last = batteries.len() - 1;
        poll_events(monitors, batteries.drop_last(), now) + battery_step(
            monitors[last],
            batteries[last],
            now,
        ).1
    }
}

/// The shortest wait any battery asks for, and never more than `SAFE_INTERVAL_SECS`.
pub open spec fn poll_sleep(monitors: Seq<MonitorView>, batteries: Seq<BatteryData>) -> u64
    decreases batteries.len(),
{
    if batteries.len() == 0 {
        SAFE_INTERVAL_SECS
    } else {
        let last = batteries.len() - 1;
        let rest = poll_sleep(monitors, batteries.drop_last());
        let here = sleep_secs(monitors[last].config, batteries[last].percentage as int);
        if here < rest {
            here
        } else {
            rest
        }
    }
}

/// One round of polling, from the monitors and the no-battery flag before it,
/// the readings and the instant, to the monitors, the flag and the outcome after.
/// - Listing failed: nothing changes, wait the no-battery interval, report why.
/// - No battery: nothing changes but the flag, which is set; warn only if it was not.
/// - Batteries: one monitor per battery, each takes its turn; the flag is cleared.
pub open spec fn polled(
    before: Seq<MonitorView>,
    warned: bool,
    config: MonitorConfig,
    readings: Result<Seq<BatteryData>, Seq<char>>,
    now: u128,
    after: Seq<MonitorView>,
    warned_after: bool,
    outcome: PollView,
) -> bool {
    match readings {
        Err(e) => {
            &&& after == before
            &&& warned_after == warned
            &&& outcome == PollView {
                sleep_secs: NO_BATTERY_POLL_SECS,
                events: Seq::empty(),
                warn_no_batteries: false,
                failure: Some(e),
            }
        },
        Ok(batteries) => if batteries.len() == 0 {
            &&& after == before
            &&& warned_after
            &&& outcome == PollView {
                sleep_secs: NO_BATTERY_POLL_SECS,
                events: Seq::empty(),
                warn_no_batteries: !warned,
                failure: None,
            }
        } else {
            let ready = resized(before, batteries.len(), config);
            &&& after == stepped(ready, batteries, now)
            &&& !warned_after
            &&& outcome == PollView {
                sleep_secs: poll_sleep(ready, batteries),
                events: poll_events(ready, batteries, now),
                warn_no_batteries: false,
                failure: None,
            }
        },
    }
}

/// Keeps exactly `count` monitors: the first ones stay as they are, missing ones
/// are created fresh with `config`.
pub fn ensure_monitor_count(monitors: &mut Vec<BatteryMonitor>, count: usize, config: &MonitorConfig)
    ensures
        monitor_views(final(monitors)@) == resized(
            monitor_views(old(monitors)@),
            count as nat,
            *config,
        ),
{
    let ghost before = monitor_views(monitors@);
    while monitors.len() < count
        invariant
            before.len() <= monitors.len(),
            monitors.len() <= before.len() || monitors.len() <= count,
            forall|j: int|
                0 <= j < monitors.len() ==> (#[trigger] monitors@[j])@ == (if j < before.len() {
                    before[j]
                } else {
                    MonitorView::fresh(*config)
                }),
        decreases count - monitors.len(),
    {
        monitors.push(BatteryMonitor::new(*config));
    }
    monitors.truncate(count);
    proof {
        assert(monitor_views(monitors@) =~= resized(before, count as nat, *config));
    }
}

/// One round of polling over readings taken at `now` (see `polled`).
pub fn process_readings(
    readings: Result<Vec<BatteryData>, String>,
    now: u128,
    monitors: &mut Vec<BatteryMonitor>,
    config: &MonitorConfig,
    no_battery_sent: &mut bool,
) -> (outcome: PollOutcome)
    ensures
        polled(
            monitor_views(old(monitors)@),
            *old(no_battery_sent),
            *config,
            readings_view(readings),
            now,
            monitor_views(final(monitors)@),
            *final(no_battery_sent),
            outcome@,
        ),
{
    match readings {
        Err(e) => PollOutcome {
            sleep_secs: NO_BATTERY_POLL_SECS,
            events: Vec::new(),
            warn_no_batteries: false,
            failure: Some(e),
        },
        Ok(batteries) => {
            if batteries.len() == 0 {
                let warn = !*no_battery_sent;
                *no_battery_sent = true;
                PollOutcome {
                    sleep_secs: NO_BATTERY_POLL_SECS,
                    events: Vec::new(),
                    warn_no_batteries: warn,
                    failure: None,
                }
            } else {
                let count = batteries.len();
                ensure_monitor_count(monitors, count, config);
                let ghost ready = monitor_views(monitors@);
                proof {
                    assert(ready.len() == monitors@.len());
                    assert forall|j: int| 0 <= j < count implies (#[trigger] monitors@[j])@
                        == ready[j] by {
                        assert(ready[j] == monitors@[j]@);
                    }
                }
                let mut shortest_sleep: u64 = SAFE_INTERVAL_SECS;
                let mut events: Vec<AlertEvent> = Vec::new();
                let mut i: usize = 0;
                while i < count
                    invariant
                        count == batteries.len(),
                        monitors.len() == count,
                        ready.len() == count,
                        0 <= i <= count,
                        forall|j: int|
                            0 <= j < i ==> (#[trigger] monitors@[j])@ == battery_step(
                                ready[j],
                                batteries@[j],
                                now,
                            ).0,
                        forall|j: int| i <= j < count ==> (#[trigger] monitors@[j])@ == ready[j],
                        events@ == poll_events(ready, batteries@.take(i as int), now),
                        shortest_sleep == poll_sleep(ready, batteries@.take(i as int)),
                    decreases count - i,
                {
                    let data = batteries[i];
                    let mut monitor = monitors[i];
                    assert(monitor@ == ready[i as int]);
                    if !monitor.is_initialized() {
                        monitor.initialize(&data, now);
                    }
                    let current_sleep = monitor.dynamic_sleep(&data);
                    if current_sleep < shortest_sleep {
                        shortest_sleep = current_sleep;
                    }
                    let mut cycle_events = monitor.process_cycle(&data, now);
                    events.append(&mut cycle_events);
                    monitors.set(i, monitor);
                    proof {
                        assert(batteries@.take(i + 1).drop_last() =~= batteries@.take(i as int));
                    }
                    i += 1;
                }
                proof {
                    assert(batteries@.take(count as int) =~= batteries@);
                    assert(monitor_views(monitors@) =~= stepped(ready, batteries@, now));
                }
                *no_battery_sent = false;
                PollOutcome {
                    sleep_secs: shortest_sleep,
                    events,
                    warn_no_batteries: false,
                    failure: None,
                }
            }
        },
    }
}

/// One round of polling: reads the batteries from `service` and the instant from
/// `clock`, then goes on as `process_readings` does for whatever they gave.
pub fn process_batteries<S: BatteryService>(
    service: &mut S,
    clock: &MonotonicClock,
    monitors: &mut Vec<BatteryMonitor>,
    config: &MonitorConfig,
    no_battery_sent: &mut bool,
) -> (outcome: PollOutcome)
    ensures
        exists|readings: Result<Seq<BatteryData>, Seq<char>>, now: u128|
            polled(
                monitor_views(old(monitors)@),
                *old(no_battery_sent),
                *config,
                readings,
                now,
                monitor_views(final(monitors)@),
                *final(no_battery_sent),
                outcome@,
            ),
{
    let readings = service.batteries();
    let now = clock.now();
    let ghost seen = readings_view(readings);
    let outcome = process_readings(readings, now, monitors, config, no_battery_sent);
    assert(polled(
        monitor_views(old(monitors)@),
        *old(no_battery_sent),
        *config,
        seen,
        now,
        monitor_views(monitors@),
        *no_battery_sent,
        outcome@,
    ));
    outcome
}

/// How long to wait for the next round, and whether a change of the power
/// source may cut the wait short.
pub struct WaitPlan {
    pub millis: u128,
    pub listen: bool,
}

/// The wait after a round: quick while fast polling lasts, otherwise what the
/// round asked for.
pub open spec fn wait_millis(fast_remaining: nat, sleep_secs: u64) -> u128 {
    if fast_remaining > 0 {
        FAST_POLL_INTERVAL_MS as u128
    } else {
        (sleep_secs * 1000) as u128
    }
}

/// Fast polling left after one more wait.
pub open spec fn remaining_after_wait(fast_remaining: nat) -> nat {
    if fast_remaining > 0 {
        (fast_remaining - 1) as nat
    } else {
        0
    }
}

/// Fast polling left after `waits` more waits with no change of the power source.
pub open spec fn remaining_after_waits(fast_remaining: nat, waits: nat) -> nat
    decreases waits,
{
    if waits == 0 {
        fast_remaining
    } else {
        remaining_after_waits(remaining_after_wait(fast_remaining), (waits - 1) as nat)
    }
}

/// Decides the waits between polling rounds: after a change of the power source
/// the batteries are read quickly for `FAST_POLL_TICKS` rounds.
#[derive(Debug, Clone, Copy)]
pub struct PollScheduler {
    fast_poll_remaining: u32,
}

impl View for PollScheduler {
    type V = nat;

    closed spec fn view(&self) -> nat {
        self.fast_poll_remaining as nat
    }
}

impl PollScheduler {
    pub fn new() -> (s: Self)
        ensures
            s@ == 0,
    {
        PollScheduler { fast_poll_remaining: 0 }
    }

    /// The power source changed: poll quickly for the next rounds.
    pub fn power_changed(&mut self)
        ensures
            final(self)@ == FAST_POLL_TICKS,
    {
        self.fast_poll_remaining = FAST_POLL_TICKS;
    }

    /// The wait after a round that asked for `sleep_secs`; a change of the power
    /// source may cut it short when one can be listened to.
    pub fn next_wait(&mut self, sleep_secs: u64, can_listen: bool) -> (plan: WaitPlan)
        ensures
            plan.millis == wait_millis(old(self)@, sleep_secs),
            plan.listen == can_listen,
            final(self)@ == remaining_after_wait(old(self)@),
            final(self)@ <= FAST_POLL_TICKS || final(self)@ < old(self)@,
    {
        if self.fast_poll_remaining > 0 {
            self.fast_poll_remaining = self.fast_poll_remaining - 1;
            WaitPlan { millis: FAST_POLL_INTERVAL_MS as u128, listen: can_listen }
        } else {
            WaitPlan { millis: (sleep_secs as u128) * 1000, listen: can_listen }
        }
    }

    /// Quick rounds left.
    pub fn fast_polls_left(&self) -> (n: u32)
        ensures
            n == self@,
    {
        self.fast_poll_remaining
    }
}

/// After a change of the power source and no further one, exactly
/// `FAST_POLL_TICKS` quick waits come, then the waits the rounds ask for.
pub proof fn lemma_fast_polling_window(waits: nat, sleep_secs: u64)
    requires
        waits <= FAST_POLL_TICKS,
    ensures
        remaining_after_waits(FAST_POLL_TICKS as nat, waits) == FAST_POLL_TICKS - waits,
        waits < FAST_POLL_TICKS ==> wait_millis(
            remaining_after_waits(FAST_POLL_TICKS as nat, waits),
            sleep_secs,
        ) == FAST_POLL_INTERVAL_MS,
        waits == FAST_POLL_TICKS ==> wait_millis(
            remaining_after_waits(FAST_POLL_TICKS as nat, waits),
            sleep_secs,
        ) == sleep_secs * 1000,
    decreases waits,
{
    lemma_remaining_after_waits(FAST_POLL_TICKS as nat, waits);
}

proof fn lemma_remaining_after_waits(start: nat, waits: nat)
    requires
        waits <= start,
    ensures
        remaining_after_waits(start, waits) == start - waits,
    decreases waits,
{
    if waits > 0 {
        lemma_remaining_after_waits((start - 1) as nat, (waits - 1) as nat);
    }
}

/// The no-battery warning is given once: a second round in a row without
/// batteries does not warn again.
pub proof fn lemma_no_battery_warning_once(
    m0: Seq<MonitorView>,
    w0: bool,
    config: MonitorConfig,
    t1: u128,
    m1: Seq<MonitorView>,
    w1: bool,
    o1: PollView,
    t2: u128,
    m2: Seq<MonitorView>,
    w2: bool,
    o2: PollView,
)
    requires
        polled(m0, w0, config, Ok(Seq::empty()), t1, m1, w1, o1),
        polled(m1, w1, config, Ok(Seq::empty()), t2, m2, w2, o2),
    ensures
        !o2.warn_no_batteries,
{
}

/// Batteries present again re-arm the no-battery warning.
pub proof fn lemma_batteries_rearm_warning(
    m0: Seq<MonitorView>,
    w0: bool,
    config: MonitorConfig,
    batteries: Seq<BatteryData>,
    t1: u128,
    m1: Seq<MonitorView>,
    w1: bool,
    o1: PollView,
    t2: u128,
    m2: Seq<MonitorView>,
    w2: bool,
    o2: PollView,
)
    requires
        batteries.len() > 0,
        polled(m0, w0, config, Ok(batteries), t1, m1, w1, o1),
        polled(m1, w1, config, Ok(Seq::empty()), t2, m2, w2, o2),
    ensures
        o2.warn_no_batteries,
{
}

/// The wait of a round: 5 or 30 seconds while batteries are present, 60 otherwise.
pub proof fn lemma_poll_sleep_values(monitors: Seq<MonitorView>, batteries: Seq<BatteryData>)
    ensures
        poll_sleep(monitors, batteries) == 5 || poll_sleep(monitors, batteries) == 30,
        poll_sleep(monitors, batteries) <= SAFE_INTERVAL_SECS,
    decreases batteries.len(),
{
    if batteries.len() > 0 {
        lemma_poll_sleep_values(monitors, batteries.drop_last());
    }
}

/// A battery that asks for the short wait: within 3 points of (or past) a
/// threshold of its monitor.
pub open spec fn near_threshold(m: MonitorView, data: BatteryData) -> bool {
    data.percentage <= m.config.low_threshold + 300 || data.percentage >= m.config.high_threshold
        - 300
}

/// The wait of a round is the shortest any battery asks for: 5 seconds exactly
/// when some battery is near a threshold of its monitor, 30 otherwise.
pub proof fn lemma_poll_sleep_is_shortest(monitors: Seq<MonitorView>, batteries: Seq<BatteryData>)
    ensures
        poll_sleep(monitors, batteries) == 5 <==> exists|i: int|
            0 <= i < batteries.len() && near_threshold(monitors[i], #[trigger] batteries[i]),
        poll_sleep(monitors, batteries) == 5 || poll_sleep(monitors, batteries) == 30,
    decreases batteries.len(),
{
    if batteries.len() > 0 {
        let rest = batteries.drop_last();
        let last = batteries.len() - 1;
        lemma_poll_sleep_is_shortest(monitors, rest);
        if exists|i: int| 0 <= i < batteries.len() && near_threshold(monitors[i], #[trigger] batteries[i]) {
            let i = choose|i: int| 0 <= i < batteries.len() && near_threshold(monitors[i], #[trigger] batteries[i]);
            if i < last {
                assert(rest[i] == batteries[i]);
            }
        }
        if exists|i: int| 0 <= i < rest.len() && near_threshold(monitors[i], #[trigger] rest[i]) {
            let i = choose|i: int| 0 <= i < rest.len() && near_threshold(monitors[i], #[trigger] rest[i]);
            assert(rest[i] == batteries[i]);
        }
    }
}

/// In a round with batteries whose monitors all have `config`, the wait is 5
/// seconds exactly when some battery is within 3 points of (or past) a threshold
/// of `config`, and 30 seconds otherwise.
pub proof fn lemma_round_waits_for_nearest_battery(
    before: Seq<MonitorView>,
    warned: bool,
    config: MonitorConfig,
    batteries: Seq<BatteryData>,
    now: u128,
    after: Seq<MonitorView>,
    warned_after: bool,
    outcome: PollView,
)
    requires
        batteries.len() > 0,
        forall|j: int| 0 <= j < before.len() ==> (#[trigger] before[j]).config == config,
        polled(before, warned, config, Ok(batteries), now, after, warned_after, outcome),
    ensures
        outcome.sleep_secs == 5 <==> exists|i: int|
            0 <= i < batteries.len() && ((#[trigger] batteries[i]).percentage
                <= config.low_threshold + 300 || batteries[i].percentage >= config.high_threshold
                - 300),
        outcome.sleep_secs == 5 || outcome.sleep_secs == 30,
{
    let ready = resized(before, batteries.len(), config);
    lemma_poll_sleep_is_shortest(ready, batteries);
    assert forall|i: int| 0 <= i < batteries.len() implies ready[i].config == config by {}
    if exists|i: int|
        0 <= i < batteries.len() && ((#[trigger] batteries[i]).percentage <= config.low_threshold
            + 300 || batteries[i].percentage >= config.high_threshold - 300) {
        let i = choose|i: int|
            0 <= i < batteries.len() && ((#[trigger] batteries[i]).percentage
                <= config.low_threshold + 300 || batteries[i].percentage >= config.high_threshold
                - 300);
        assert(near_threshold(ready[i], batteries[i]));
    }
    if exists|i: int| 0 <= i < batteries.len() && near_threshold(ready[i], #[trigger] batteries[i]) {
        let i = choose|i: int|
            0 <= i < batteries.len() && near_threshold(ready[i], #[trigger] batteries[i]);
        assert(ready[i].config == config);
    }
}

/// Resizing keeps the monitors it has room for, in place, and adds fresh ones
/// (uninitialized, with `config`) for the batteries beyond them.
pub proof fn lemma_resized_keeps_monitors(monitors: Seq<MonitorView>, count: nat, config: MonitorConfig)
    ensures
        resized(monitors, count, config).len() == count,
        forall|i: int|
            0 <= i < count && i < monitors.len() ==> #[trigger] resized(monitors, count, config)[i]
                == monitors[i],
        forall|i: int|
            monitors.len() <= i < count ==> {
                &&& !(#[trigger] resized(monitors, count, config)[i]).initialized
                &&& resized(monitors, count, config)[i].config == config
                &&& resized(monitors, count, config)[i].last_low_alert is None
                &&& resized(monitors, count, config)[i].last_high_alert is None
                &&& resized(monitors, count, config)[i].previous_state == BatteryState::Unknown
            },
{
}

/// Batteries seen for the first time are silent: a round in which every
/// battery's monitor is new gives no event (the cooldown being non-zero).
pub proof fn lemma_first_round_is_silent(
    monitors: Seq<MonitorView>,
    batteries: Seq<BatteryData>,
    now: u128,
)
    requires
        batteries.len() <= monitors.len(),
        forall|i: int|
            0 <= i < batteries.len() ==> !(#[trigger] monitors[i]).initialized
                && monitors[i].config.cooldown > 0,
    ensures
        poll_events(monitors, batteries, now).len() == 0,
    decreases batteries.len(),
{
    if batteries.len() > 0 {
        let last = batteries.len() - 1;
        let rest = batteries.drop_last();
        assert(!monitors[last].initialized && monitors[last].config.cooldown > 0);
        lemma_first_reading_is_silent(monitors[last], batteries[last], now);
        lemma_first_round_is_silent(monitors, rest, now);
    }
}

/// After a round with batteries there is exactly one monitor per battery.
pub proof fn lemma_one_monitor_per_battery(
    before: Seq<MonitorView>,
    warned: bool,
    config: MonitorConfig,
    batteries: Seq<BatteryData>,
    now: u128,
    after: Seq<MonitorView>,
    warned_after: bool,
    outcome: PollView,
)
    requires
        batteries.len() > 0,
        polled(before, warned, config, Ok(batteries), now, after, warned_after, outcome),
    ensures
        after.len() == batteries.len(),
        forall|i: int| 0 <= i < after.len() ==> (#[trigger] after[i]).initialized,
{
    assert forall|i: int| 0 <= i < after.len() implies (#[trigger] after[i]).initialized by {
        let ready = resized(before, batteries.len(), config);
        let m = ready[i];
        let r = if m.initialized {
            m
        } else {
            m.initialize(batteries[i], now)
        };
        lemma_cycle_keeps_initialized(r, batteries[i], now);
    }
}

proof fn lemma_cycle_keeps_initialized(m: MonitorView, data: BatteryData, now: u128)
    ensures
        m.cycle(data, now).0.initialized == m.initialized,
        m.cycle(data, now).0.config == m.config,
{
}

} // verus!
