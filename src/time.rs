use vstd::prelude::*;

verus! {

/// A non-negative span of time, counted in whole milliseconds.
#[derive(Clone, Copy, Debug, PartialEq, Eq, Structural)]
pub struct Duration {
    millis: u64,
}

impl View for Duration {
    type V = nat;

    closed spec fn view(&self) -> nat {
        self.millis as nat
    }
}

impl Duration {
    pub fn from_millis(millis: u64) -> (r: Duration)
        ensures
            r@ == millis,
    {
        Duration { millis }
    }

    pub fn from_secs(secs: u64) -> (r: Duration)
        requires
            secs * 1000 <= u64::MAX,
        ensures
            r@ == secs * 1000,
    {
        Duration { millis: secs * 1000 }
    }

    pub fn as_millis(&self) -> (r: u64)
        ensures
            r == self@,
    {
        self.millis
    }

    /// The whole seconds in the span; the milliseconds left over are dropped.
    pub fn as_secs(&self) -> (r: u64)
        ensures
            r == self@ / 1000,
    {
        self.millis / 1000
    }
}

/// A reading of a monotonic clock: milliseconds since an origin that the
/// caller chooses and keeps for the life of a timer.
#[derive(Clone, Copy, Debug, PartialEq, Eq, Structural)]
pub struct Instant {
    millis: u64,
}

impl View for Instant {
    type V = nat;

    closed spec fn view(&self) -> nat {
        self.millis as nat
    }
}

/// The time from `earlier` to `later`, or zero when `later` comes first.
pub open spec fn elapsed(earlier: nat, later: nat) -> nat {
    if later >= earlier {
        (later - earlier) as nat
    } else {
        0
    }
}

impl Instant {
    pub fn from_millis(millis: u64) -> (r: Instant)
        ensures
            r@ == millis,
    {
        Instant { millis }
    }

    pub fn as_millis(&self) -> (r: u64)
        ensures
            r == self@,
    {
        self.millis
    }

    /// The instant `d` after this one, or `None` when it cannot be represented.
    pub fn checked_add(&self, d: Duration) -> (r: Option<Instant>)
        ensures
            self@ + d@ <= u64::MAX ==> (r matches Some(t) && t@ == self@ + d@),
            self@ + d@ > u64::MAX ==> r is None,
    {
        match self.millis.checked_add(d.millis) {
            Some(millis) => Some(Instant { millis }),
            None => None,
        }
    }

    /// The time passed since `earlier`; zero when `earlier` is in fact later.
    pub fn duration_since(&self, earlier: Instant) -> (r: Duration)
        ensures
            r@ == elapsed(earlier@, self@),
    {
        if self.millis >= earlier.millis {
            Duration { millis: self.millis - earlier.millis }
        } else {
            Duration { millis: 0 }
        }
    }
}

} // verus!
