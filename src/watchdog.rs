//! Liveness pulses for an external supervisor, at most one per half of the
//! supervisor's own interval, and none when the supervisor asked for none.
use vstd::prelude::*;

verus! {

/// What a `WatchdogHandler` holds: the least time in µs that must pass between
/// two pulses, and the time of the last pulse, or `None` when liveness
/// checking is disabled.
pub struct WatchdogState {
    pub period_us: u64,
    pub last_pulse_us: Option<u64>,
}

/// Time that passed from `since` to `now`; none if the clock reads earlier.
pub open spec fn elapsed_us(since: u64, now: u64) -> int {
    if since <= now {
        now - since
    } else {
        0
    }
}

/// Whether a pulse is due at `now`.
pub open spec fn pulse_due(w: WatchdogState, now: u64) -> bool {
    match w.last_pulse_us {
        Some(last) => w.period_us < elapsed_us(last, now),
        None => false,
    }
}

/// The handler after a tick at `now`, and whether that tick pulsed.
pub open spec fn watchdog_step(w: WatchdogState, now: u64) -> (WatchdogState, bool) {
    if pulse_due(w, now) {
        (WatchdogState { period_us: w.period_us, last_pulse_us: Some(now) }, true)
    } else {
        (w, false)
    }
}

/// The times, among the ticks at `ticks`, at which a pulse is emitted.
pub open spec fn pulse_times(w: WatchdogState, ticks: Seq<u64>) -> Seq<u64>
    decreases ticks.len(),
{
    if ticks.len() == 0 {
        Seq::empty()
    } else {
        let (next, pulsed) = watchdog_step(w, ticks[0]);
        let rest = pulse_times(next, ticks.drop_first());
        if pulsed {
            seq![ticks[0]].add(rest)
        } else {
            rest
        }
    }
}

/// Each of `times` lies more than `period` after the one before it, the first
/// more than `period` after `start`.
pub open spec fn spaced(start: u64, times: Seq<u64>, period: u64) -> bool
    decreases times.len(),
{
    times.len() == 0 || (times[0] > start + period && spaced(times[0], times.drop_first(), period))
}

/// Decides when the process signals its supervisor that it is alive.
pub struct WatchdogHandler {
    usec: u64,
    now: Option<u64>,
}

impl View for WatchdogHandler {
    type V = WatchdogState;

    closed spec fn view(&self) -> WatchdogState {
        WatchdogState { period_us: self.usec, last_pulse_us: self.now }
    }
}

impl WatchdogHandler {
    /// A handler for a supervisor that expects a pulse every `watchdog_usec`
    /// µs, or that expects none (`None`); `now_us` is the current time. Pulses
    /// are spaced by half the supervisor's interval, so that each comes before
    /// its deadline.
    pub fn new(watchdog_usec: Option<u64>, now_us: u64) -> (r: Self)
        ensures
            watchdog_usec matches Some(u) ==> r@ == (WatchdogState {
                period_us: u / 2,
                last_pulse_us: Some(now_us),
            }),
            watchdog_usec is None ==> r@ == (WatchdogState {
                period_us: u64::MAX,
                last_pulse_us: None,
            }),
    {
        match watchdog_usec {
            Some(u) => WatchdogHandler { usec: u / 2, now: Some(now_us) },
            None => WatchdogHandler { usec: u64::MAX, now: None },
        }
    }

    /// Whether liveness checking is enabled.
    pub fn is_enabled(&self) -> (r: bool)
        ensures
            r == self@.last_pulse_us is Some,
    {
        self.now.is_some()
    }

    /// The least time in µs between two pulses.
    pub fn interval_us(&self) -> (r: u64)
        ensures
            r == self@.period_us,
    {
        self.usec
    }

    /// A tick at `now_us`: answers whether a pulse is due, and if so takes
    /// `now_us` as the time of the last pulse.
    pub fn notify(&mut self, now_us: u64) -> (r: bool)
        ensures
            (final(self)@, r) == watchdog_step(old(self)@, now_us),
    {
        match self.now {
            Some(last) => {
                let elapsed = if last <= now_us {
                    now_us - last
                } else {
                    0
                };
                if self.usec < elapsed {
                    self.now = Some(now_us);
                    true
                } else {
                    false
                }
            },
            None => false,
        }
    }
}

/// With liveness checking disabled no tick ever pulses.
pub proof fn lemma_disabled_never_pulses(w: WatchdogState, ticks: Seq<u64>)
    requires
        w.last_pulse_us is None,
    ensures
        pulse_times(w, ticks) == Seq::<u64>::empty(),
    decreases ticks.len(),
{
    if ticks.len() > 0 {
        lemma_disabled_never_pulses(w, ticks.drop_first());
    }
}

/// With liveness checking enabled, whatever the times the ticks come at, each
/// pulse comes more than the handler's interval after the one before it (the
/// first, after the handler's start).
pub proof fn lemma_pulses_spaced(w: WatchdogState, ticks: Seq<u64>)
    requires
        w.last_pulse_us is Some,
    ensures
        spaced(w.last_pulse_us->Some_0, pulse_times(w, ticks), w.period_us),
    decreases ticks.len(),
{
    if ticks.len() > 0 {
        let (next, pulsed) = watchdog_step(w, ticks[0]);
        lemma_pulses_spaced(next, ticks.drop_first());
        let rest = pulse_times(next, ticks.drop_first());
        if pulsed {
            assert((seq![ticks[0]].add(rest)).drop_first() =~= rest);
        }
    }
}

} // verus!
