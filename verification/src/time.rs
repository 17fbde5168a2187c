//! Spans of playback time, with nanosecond resolution.

use vstd::prelude::*;

verus! {

/// Nanoseconds in one second.
pub const NANOS_PER_SEC: u128 = 1_000_000_000;

/// Nanoseconds in one millisecond.
pub const NANOS_PER_MILLI: u128 = 1_000_000;

/// The longest span that can be held, in nanoseconds: `u64::MAX` whole seconds
/// and 999,999,999 nanoseconds.
pub const MAX_NANOS: u128 = 18_446_744_073_709_551_615_999_999_999;

/// Length of one audio frame, in nanoseconds (20 ms).
pub const TIMESTEP_NANOS: u128 = 20_000_000;

/// A non-negative span of time, counted in nanoseconds and never longer than
/// [`MAX_NANOS`].
#[derive(Clone, Copy, Debug, PartialEq, Eq, Structural)]
pub struct Timespan {
    nanos: u128,
}

impl Timespan {
    #[verifier::type_invariant]
    spec fn in_range(self) -> bool {
        self.nanos <= MAX_NANOS
    }

    /// The length of this span in nanoseconds.
    pub closed spec fn nanos(self) -> nat {
        self.nanos as nat
    }

    /// The span of `n` nanoseconds.
    pub closed spec fn of_nanos(n: nat) -> Timespan {
        Timespan { nanos: n as u128 }
    }

    /// The span that is `self` and `rhs` laid end to end.
    pub open spec fn plus(self, rhs: Timespan) -> Timespan {
        Timespan::of_nanos(self.nanos() + rhs.nanos())
    }

    /// The length of one audio frame.
    pub open spec fn frame() -> Timespan {
        Timespan::of_nanos(TIMESTEP_NANOS as nat)
    }

    /// The span of `n` nanoseconds is `n` nanoseconds long, for every `n` that a
    /// span can hold.
    pub broadcast proof fn lemma_of_nanos(n: nat)
        requires
            n <= MAX_NANOS,
        ensures
            #[trigger] Timespan::of_nanos(n).nanos() == n,
    {
    }

    /// The empty span.
    pub fn zero() -> (t: Timespan)
        ensures
            t.nanos() == 0,
            t == Timespan::of_nanos(0),
    {
        Timespan { nanos: 0 }
    }

    /// The span of `n` nanoseconds, or `None` where `n` is longer than
    /// [`MAX_NANOS`].
    pub fn from_nanos(n: u128) -> (r: Option<Timespan>)
        ensures
            r == if n <= MAX_NANOS {
                Some(Timespan::of_nanos(n as nat))
            } else {
                None
            },
            r matches Some(t) ==> t.nanos() == n,
    {
        if n <= MAX_NANOS {
            Some(Timespan { nanos: n })
        } else {
            None
        }
    }

    /// The span of `ms` milliseconds.
    pub fn from_millis(ms: u64) -> (t: Timespan)
        ensures
            t.nanos() == ms * NANOS_PER_MILLI,
            t == Timespan::of_nanos((ms * NANOS_PER_MILLI) as nat),
    {
        let wide: u128 = ms as u128;
        assert(wide * NANOS_PER_MILLI <= MAX_NANOS) by (nonlinear_arith)
            requires
                wide <= u64::MAX,
        ;
        Timespan { nanos: wide * NANOS_PER_MILLI }
    }

    /// The length of one audio frame: 20 ms.
    pub fn timestep() -> (t: Timespan)
        ensures
            t.nanos() == TIMESTEP_NANOS,
            t == Timespan::frame(),
    {
        Timespan { nanos: TIMESTEP_NANOS }
    }

    /// The length of this span in nanoseconds.
    pub fn as_nanos(&self) -> (n: u128)
        ensures
            n == self.nanos(),
            n <= MAX_NANOS,
    {
        proof {
            use_type_invariant(self);
        }
        self.nanos
    }

    /// The whole seconds in this span.
    pub fn as_secs(&self) -> (s: u64)
        ensures
            s == self.nanos() / (NANOS_PER_SEC as nat),
    {
        proof {
            use_type_invariant(self);
        }
        (self.nanos / NANOS_PER_SEC) as u64
    }

    /// What is left of this span, in nanoseconds, once its whole seconds are
    /// taken away.
    pub fn subsec_nanos(&self) -> (n: u32)
        ensures
            n == self.nanos() % (NANOS_PER_SEC as nat),
    {
        (self.nanos % NANOS_PER_SEC) as u32
    }

    /// The two spans laid end to end.
    pub fn extended_by(self, rhs: Timespan) -> (t: Timespan)
        requires
            self.nanos() + rhs.nanos() <= MAX_NANOS,
        ensures
            t == self.plus(rhs),
            t.nanos() == self.nanos() + rhs.nanos(),
    {
        Timespan { nanos: self.nanos + rhs.nanos }
    }

    /// The two spans laid end to end, or `None` where that is longer than
    /// [`MAX_NANOS`].
    pub fn checked_add(self, rhs: Timespan) -> (r: Option<Timespan>)
        ensures
            r == if self.nanos() + rhs.nanos() <= MAX_NANOS {
                Some(self.plus(rhs))
            } else {
                None
            },
            r matches Some(t) ==> t.nanos() == self.nanos() + rhs.nanos(),
    {
        proof {
            use_type_invariant(self);
            use_type_invariant(rhs);
        }
        let sum: u128 = self.nanos + rhs.nanos;
        if sum <= MAX_NANOS {
            Some(Timespan { nanos: sum })
        } else {
            None
        }
    }
}

impl Default for Timespan {
    fn default() -> (t: Timespan)
        ensures
            t == Timespan::of_nanos(0),
    {
        Timespan::zero()
    }
}

} // verus!
