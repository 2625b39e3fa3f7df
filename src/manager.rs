use vstd::prelude::*;

use crate::button::Color;
use crate::time::{Duration, Instant};
use crate::tracker::{next_view, remaining_view, tick_view, State, Tracker, TrackerConfig};

verus! {

/// One minute in milliseconds.
pub const MINUTE_MILLIS: u64 = 60_000;

/// The announcement for `remaining` milliseconds when the loop polls every
/// `interval`: shifted by half an interval and cut to whole seconds, given
/// only when the shifted value lies within an interval past a whole minute.
pub open spec fn loggable_spec(remaining: nat, interval: nat) -> Option<nat> {
    let shifted = remaining + interval / 2;
    if shifted % (MINUTE_MILLIS as nat) <= interval {
        Some(shifted / 1000 * 1000)
    } else {
        None
    }
}

/// The time remaining worth announcing, if any: `remaining` rounded to the
/// second, when it is within half a poll interval of a whole minute (a tie
/// goes to the later minute mark); `None` otherwise.
pub fn loggable_time_remaining(remaining: Duration, loop_interval: Duration) -> (r: Option<Duration>)
    requires
        remaining@ + loop_interval@ / 2 <= u64::MAX,
    ensures
        r is None <==> loggable_spec(remaining@, loop_interval@) is None,
        r matches Some(d) ==> loggable_spec(remaining@, loop_interval@) == Some(d@),
{
    let shifted = remaining.as_millis() + loop_interval.as_millis() / 2;
    if shifted % MINUTE_MILLIS <= loop_interval.as_millis() {
        Some(Duration::from_millis(shifted / 1000 * 1000))
    } else {
        None
    }
}

/// The light shown in each phase: red while waiting for an acknowledgment,
/// green at work, blue on a short break, purple on a long one.
pub open spec fn color_spec(s: State) -> Color {
    match s {
        State::PendingWork | State::PendingShortBreak | State::PendingLongBreak => Color(255, 0, 0),
        State::Working => Color(0, 255, 0),
        State::ShortBreak => Color(0, 0, 255),
        State::LongBreak => Color(255, 0, 255),
    }
}

pub fn color_for(s: State) -> (r: Color)
    ensures
        r == color_spec(s),
{
    match s {
        State::PendingWork | State::PendingShortBreak | State::PendingLongBreak => Color(255, 0, 0),
        State::Working => Color(0, 255, 0),
        State::ShortBreak => Color(0, 0, 255),
        State::LongBreak => Color(255, 0, 255),
    }
}

/// A press of one of the button's two keys.
#[derive(Clone, Copy, Debug, PartialEq, Eq, Structural)]
pub enum ButtonPress {
    Primary,
    Secondary,
}

impl ButtonPress {
    /// The press a byte from the button's signal stands for: `'1'` for the
    /// primary key, `'2'` for the secondary; `None` for any other byte.
    pub fn from_byte(b: u8) -> (r: Option<ButtonPress>)
        ensures
            b == '1' as u8 ==> r == Some(ButtonPress::Primary),
            b == '2' as u8 ==> r == Some(ButtonPress::Secondary),
            b != '1' as u8 && b != '2' as u8 ==> r is None,
    {
        if b == '1' as u8 {
            Some(ButtonPress::Primary)
        } else if b == '2' as u8 {
            Some(ButtonPress::Secondary)
        } else {
            None
        }
    }
}

/// What one pass of the polling loop asks of the outside world.
#[derive(Clone, Copy, Debug, PartialEq, Eq)]
pub struct Outcome {
    /// The phase before the pass.
    pub previous: State,
    /// The phase after the pass.
    pub current: State,
    /// The colour to show, when the phase has changed.
    pub color: Option<Color>,
    /// The time remaining to announce, if any.
    pub announcement: Option<Duration>,
}

/// The timer after one pass: a primary press acknowledges the phase, then
/// the clock is looked at.
pub open spec fn step_view(
    m: crate::tracker::TrackerView,
    press: Option<ButtonPress>,
    now: nat,
) -> crate::tracker::TrackerView {
    let acked = if press == Some(ButtonPress::Primary) {
        next_view(m, now)
    } else {
        m
    };
    tick_view(acked, now)
}

/// The announcement for a phase with `remaining` milliseconds left: none in
/// a pending phase, once the phase has run over, or past what a duration
/// can hold.
pub open spec fn announcement_spec(remaining: Option<int>, interval: nat) -> Option<nat> {
    match remaining {
        Some(ms) => if 0 <= ms && ms + interval / 2 <= u64::MAX {
            loggable_spec(ms as nat, interval)
        } else {
            None
        },
        None => None,
    }
}

/// The decisions of the polling loop around a timer; the loop itself, with
/// its clock, signal and light, runs outside.
pub struct Manager {
    pub tracker: Tracker,
    pub loop_interval: Duration,
}

impl Manager {
    pub fn new(config: TrackerConfig, now: Instant, loop_interval: Duration) -> (r: Manager)
        ensures
            r.tracker@ == crate::tracker::initial_view(config, now@),
            r.loop_interval == loop_interval,
    {
        Manager { tracker: Tracker::new(config, now), loop_interval }
    }

    /// One pass of the loop at time `now`, with the press read from the
    /// signal, if any: acknowledges on a primary press, looks at the clock,
    /// and says which colour to show and what time to announce.
    pub fn step(&mut self, press: Option<ButtonPress>, now: Instant) -> (r: Outcome)
        requires
            old(self).tracker@.intervals < u64::MAX,
        ensures
            final(self).tracker@ == step_view(old(self).tracker@, press, now@),
            final(self).loop_interval == old(self).loop_interval,
            r.previous == old(self).tracker@.state,
            r.current == final(self).tracker@.state,
            r.color == if r.current != r.previous {
                Some(color_spec(r.current))
            } else {
                None
            },
            r.announcement is None <==> announcement_spec(
                remaining_view(final(self).tracker@, now@),
                old(self).loop_interval@,
            ) is None,
            r.announcement matches Some(d) ==> announcement_spec(
                remaining_view(final(self).tracker@, now@),
                old(self).loop_interval@,
            ) == Some(d@),
    {
        let previous = self.tracker.state();
        if let Some(ButtonPress::Primary) = press {
            self.tracker.next(now);
        }
        self.tracker.tick(now);
        let current = self.tracker.state();
        let color = if current != previous {
            Some(color_for(current))
        } else {
            None
        };
        let announcement = match self.tracker.time_remaining(now) {
            Some(ms) => {
                let half = self.loop_interval.as_millis() / 2;
                if 0 <= ms && ms <= (u64::MAX - half) as i128 {
                    loggable_time_remaining(Duration::from_millis(ms as u64), self.loop_interval)
                } else {
                    None
                }
            },
            None => None,
        };
        Outcome { previous, current, color, announcement }
    }
}

} // verus!
