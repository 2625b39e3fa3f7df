use vstd::prelude::*;

use crate::time::{elapsed, Duration, Instant};

verus! {

/// The length of each timed phase.
pub struct TrackerConfig {
    pub work_duration: Duration,
    pub short_break_duration: Duration,
    pub long_break_duration: Duration,
}

impl Default for TrackerConfig {
    /// Twenty minutes of work, five of short break, fifteen of long break.
    fn default() -> (r: TrackerConfig)
        ensures
            r.work_duration@ == 20 * 60 * 1000,
            r.short_break_duration@ == 5 * 60 * 1000,
            r.long_break_duration@ == 15 * 60 * 1000,
    {
        TrackerConfig {
            work_duration: Duration::from_secs(20 * 60),
            short_break_duration: Duration::from_secs(5 * 60),
            long_break_duration: Duration::from_secs(15 * 60),
        }
    }
}

/// The phase a timer is in. A pending phase waits for an acknowledgment
/// before the timed phase that follows it starts.
#[derive(Clone, Copy, Debug, PartialEq, Eq, Hash, Structural)]
pub enum State {
    PendingWork,
    Working,
    PendingShortBreak,
    ShortBreak,
    PendingLongBreak,
    LongBreak,
}

/// True of the three phases that only an acknowledgment ends.
pub open spec fn is_pending(s: State) -> bool {
    s is PendingWork || s is PendingShortBreak || s is PendingLongBreak
}

/// How a timer looks to a proof: its phase, when that phase began, how many
/// work phases it has finished, and its phase lengths.
pub struct TrackerView {
    pub state: State,
    pub entered_at: nat,
    pub intervals: nat,
    pub config: TrackerConfig,
}

/// The configured length of a timed phase; zero for a pending one.
pub open spec fn phase_length(config: TrackerConfig, s: State) -> nat {
    match s {
        State::Working => config.work_duration@,
        State::ShortBreak => config.short_break_duration@,
        State::LongBreak => config.long_break_duration@,
        _ => 0,
    }
}

/// Every fourth finished work phase earns the long break.
pub open spec fn earns_long_break(intervals: nat) -> bool {
    intervals % 4 == 0
}

/// The view after an acknowledgment at time `now`.
pub open spec fn next_view(v: TrackerView, now: nat) -> TrackerView {
    match v.state {
        State::PendingWork => TrackerView { state: State::Working, entered_at: now, ..v },
        State::Working => {
            let n = v.intervals + 1;
            TrackerView {
                state: if earns_long_break(n) {
                    State::LongBreak
                } else {
                    State::ShortBreak
                },
                entered_at: now,
                intervals: n,
                ..v
            }
        },
        State::PendingShortBreak => TrackerView { state: State::ShortBreak, entered_at: now, ..v },
        State::PendingLongBreak => TrackerView { state: State::LongBreak, entered_at: now, ..v },
        State::ShortBreak | State::LongBreak => TrackerView {
            state: State::Working,
            entered_at: now,
            ..v
        },
    }
}

/// The view after the clock is looked at, at time `now`: a timed phase whose
/// length has passed gives way to the pending phase after it.
pub open spec fn tick_view(v: TrackerView, now: nat) -> TrackerView {
    if is_pending(v.state) || elapsed(v.entered_at, now) < phase_length(v.config, v.state) {
        v
    } else if v.state is Working {
        let n = v.intervals + 1;
        TrackerView {
            state: if earns_long_break(n) {
                State::PendingLongBreak
            } else {
                State::PendingShortBreak
            },
            entered_at: now,
            intervals: n,
            ..v
        }
    } else {
        TrackerView { state: State::PendingWork, entered_at: now, ..v }
    }
}

/// What is left of a timed phase at time `now`, in milliseconds; negative
/// once the phase has run over. `None` in a pending phase.
pub open spec fn remaining_view(v: TrackerView, now: nat) -> Option<int> {
    if is_pending(v.state) {
        None
    } else {
        Some(phase_length(v.config, v.state) - elapsed(v.entered_at, now))
    }
}

/// The view of a timer created at time `now`.
pub open spec fn initial_view(config: TrackerConfig, now: nat) -> TrackerView {
    TrackerView { state: State::PendingWork, entered_at: now, intervals: 0, config }
}

/// The pending phase that follows a timed phase once its length has passed.
pub open spec fn pending_after(v: TrackerView) -> State {
    if v.state is Working {
        if earns_long_break(v.intervals + 1) {
            State::PendingLongBreak
        } else {
            State::PendingShortBreak
        }
    } else {
        State::PendingWork
    }
}

/// In a timed phase, looking at the clock changes nothing before the phase
/// has run its length; from then on it makes exactly one transition, into
/// the pending phase that follows, where further looks change nothing.
pub proof fn lemma_tick_fires_once_at_deadline(v: TrackerView, now: nat)
    requires
        !is_pending(v.state),
    ensures
        elapsed(v.entered_at, now) < phase_length(v.config, v.state) ==> tick_view(v, now) == v,
        elapsed(v.entered_at, now) >= phase_length(v.config, v.state) ==> {
            let w = tick_view(v, now);
            &&& w.state == pending_after(v)
            &&& w.entered_at == now
            &&& is_pending(w.state)
            &&& forall|t: nat| #[trigger] tick_view(w, t) == w
        },
{
}

/// Once a look at the clock has made a transition, another look at the same
/// or an earlier time makes none.
pub proof fn lemma_tick_does_not_fire_twice(v: TrackerView, now: nat, again: nat)
    requires
        tick_view(v, now) != v,
        again <= now,
    ensures
        tick_view(tick_view(v, now), again) == tick_view(v, now),
{
}

/// Acknowledging a pending work phase and working it to its end finishes one
/// more interval, and is followed by the long break exactly when the count
/// reaches a multiple of four.
pub proof fn lemma_work_phase_picks_break(v: TrackerView, start: nat, end: nat)
    requires
        v.state is PendingWork,
        elapsed(start, end) >= v.config.work_duration@,
    ensures
        ({
            let w = tick_view(next_view(v, start), end);
            &&& w.intervals == v.intervals + 1
            &&& w.state == if (v.intervals + 1) % 4 == 0 {
                State::PendingLongBreak
            } else {
                State::PendingShortBreak
            }
        }),
{
}

/// Acknowledging a pending break and letting it run its length leads back
/// to pending work without touching the interval count.
pub proof fn lemma_break_phase_returns_to_work(v: TrackerView, start: nat, end: nat)
    requires
        v.state is PendingShortBreak || v.state is PendingLongBreak,
        elapsed(start, end) >= phase_length(v.config, next_view(v, start).state),
    ensures
        tick_view(next_view(v, start), end).state is PendingWork,
        tick_view(next_view(v, start), end).intervals == v.intervals,
{
}

/// Both operations count one interval exactly when they leave `Working`,
/// and stamp the time of every transition they make.
pub proof fn lemma_transitions_keep_the_record(v: TrackerView, now: nat)
    ensures
        ({
            let w = next_view(v, now);
            &&& w.state != v.state
            &&& w.entered_at == now
            &&& w.config == v.config
            &&& w.intervals == v.intervals + if v.state is Working { 1nat } else { 0nat }
        }),
        ({
            let w = tick_view(v, now);
            &&& w.state == v.state ==> w == v
            &&& w.state != v.state ==> w.entered_at == now
            &&& w.config == v.config
            &&& w.intervals == v.intervals + if v.state is Working && w.state != v.state {
                1nat
            } else {
                0nat
            }
        }),
{
}

/// From pending work: acknowledge at once and work the phase to its end.
pub open spec fn work_through(v: TrackerView) -> TrackerView {
    tick_view(next_view(v, v.entered_at), v.entered_at + v.config.work_duration@)
}

/// From a pending break: acknowledge at once and let the break run its length.
pub open spec fn rest_through(v: TrackerView) -> TrackerView {
    let b = next_view(v, v.entered_at);
    tick_view(b, b.entered_at + phase_length(b.config, b.state))
}

/// The view after `n` whole cycles of work and break, each phase
/// acknowledged at once and run to its length.
pub open spec fn cycles(v: TrackerView, n: nat) -> TrackerView
    decreases n,
{
    if n == 0 {
        v
    } else {
        rest_through(work_through(cycles(v, (n - 1) as nat)))
    }
}

/// Cycle after cycle, the timer comes back to pending work with one more
/// interval each time, and the work phase of cycle `n + 1` ends in the long
/// break exactly when the count it reaches is a multiple of four: on a fresh
/// timer, the fourth and eighth do, the others take a short break.
pub proof fn lemma_every_fourth_cycle_earns_long_break(v: TrackerView, n: nat)
    requires
        v.state is PendingWork,
    ensures
        cycles(v, n).state is PendingWork,
        cycles(v, n).intervals == v.intervals + n,
        work_through(cycles(v, n)).intervals == v.intervals + n + 1,
        work_through(cycles(v, n)).state == if (v.intervals + n + 1) % 4 == 0 {
            State::PendingLongBreak
        } else {
            State::PendingShortBreak
        },
    decreases n,
{
    if n > 0 {
        lemma_every_fourth_cycle_earns_long_break(v, (n - 1) as nat);
    }
}

/// A pomodoro timer. Every operation takes the current time from its caller,
/// who must hand over times that never go backwards.
pub struct Tracker {
    pub state: State,
    entered_state: Instant,
    intervals: u64,
    config: TrackerConfig,
}

impl View for Tracker {
    type V = TrackerView;

    closed spec fn view(&self) -> TrackerView {
        TrackerView {
            state: self.state,
            entered_at: self.entered_state@,
            intervals: self.intervals as nat,
            config: self.config,
        }
    }
}

impl Tracker {
    pub fn new(config: TrackerConfig, now: Instant) -> (r: Tracker)
        ensures
            r@ == initial_view(config, now@),
            r@.state is PendingWork,
            r@.intervals == 0,
            forall|t: nat| remaining_view(r@, t) is None,
    {
        Tracker { state: State::PendingWork, entered_state: now, intervals: 0, config }
    }

    /// The phase the timer is in.
    pub fn state(&self) -> (r: State)
        ensures
            r == self@.state,
    {
        self.state
    }

    /// The number of work phases finished so far.
    pub fn completed_intervals(&self) -> (r: u64)
        ensures
            r == self@.intervals,
    {
        self.intervals
    }

    /// Acknowledges the current phase and moves on at once; out of `Working`
    /// this happens whether or not the work phase has run its length.
    pub fn next(&mut self, now: Instant)
        requires
            old(self)@.state is Working ==> old(self)@.intervals < u64::MAX,
        ensures
            final(self)@ == next_view(old(self)@, now@),
            old(self)@.state is PendingWork ==> final(self)@.state is Working,
            old(self)@.state is Working ==> {
                &&& final(self)@.intervals == old(self)@.intervals + 1
                &&& final(self)@.state == if final(self)@.intervals % 4 == 0 {
                    State::LongBreak
                } else {
                    State::ShortBreak
                }
            },
    {
        match self.state {
            State::PendingWork => {
                self.enter_state(State::Working, now);
            },
            State::Working => {
                self.intervals = self.intervals + 1;
                if self.intervals % 4 == 0 {
                    self.enter_state(State::LongBreak, now);
                } else {
                    self.enter_state(State::ShortBreak, now);
                }
            },
            State::PendingShortBreak => {
                self.enter_state(State::ShortBreak, now);
            },
            State::PendingLongBreak => {
                self.enter_state(State::LongBreak, now);
            },
            State::ShortBreak | State::LongBreak => {
                self.enter_state(State::Working, now);
            },
        }
    }

    /// Ends a timed phase whose length has passed by `now`; does nothing in
    /// a pending phase or before the phase has run its length.
    pub fn tick(&mut self, now: Instant)
        requires
            old(self)@.state is Working ==> old(self)@.intervals < u64::MAX,
        ensures
            final(self)@ == tick_view(old(self)@, now@),
    {
        match self.state {
            State::PendingWork | State::PendingShortBreak | State::PendingLongBreak => {},
            State::Working => {
                if now.duration_since(self.entered_state).as_millis()
                    >= self.config.work_duration.as_millis() {
                    self.intervals = self.intervals + 1;
                    if self.intervals % 4 == 0 {
                        self.enter_state(State::PendingLongBreak, now);
                    } else {
                        self.enter_state(State::PendingShortBreak, now);
                    }
                }
            },
            State::ShortBreak => {
                if now.duration_since(self.entered_state).as_millis()
                    >= self.config.short_break_duration.as_millis() {
                    self.enter_state(State::PendingWork, now);
                }
            },
            State::LongBreak => {
                if now.duration_since(self.entered_state).as_millis()
                    >= self.config.long_break_duration.as_millis() {
                    self.enter_state(State::PendingWork, now);
                }
            },
        }
    }

    /// Milliseconds left in the current timed phase at `now`, negative once
    /// it has run over without a `tick`; `None` in a pending phase.
    pub fn time_remaining(&self, now: Instant) -> (r: Option<i128>)
        ensures
            r is None <==> remaining_view(self@, now@) is None,
            r matches Some(ms) ==> remaining_view(self@, now@) == Some(ms as int),
            is_pending(self@.state) ==> r is None,
            self@.state is Working ==> (r matches Some(ms) && ms == self@.config.work_duration@
                - elapsed(self@.entered_at, now@)),
    {
        let since = now.duration_since(self.entered_state).as_millis() as i128;
        match self.state {
            State::PendingWork | State::PendingShortBreak | State::PendingLongBreak => None,
            State::Working => Some(self.config.work_duration.as_millis() as i128 - since),
            State::ShortBreak => Some(self.config.short_break_duration.as_millis() as i128 - since),
            State::LongBreak => Some(self.config.long_break_duration.as_millis() as i128 - since),
        }
    }

    fn enter_state(&mut self, state: State, now: Instant)
        ensures
            final(self).state == state,
            final(self).entered_state == now,
            final(self).intervals == old(self).intervals,
            final(self).config == old(self).config,
    {
        self.state = state;
        self.entered_state = now;
    }
}

} // verus!
