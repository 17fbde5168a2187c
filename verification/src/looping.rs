//! How often a track is still to be played again.

use vstd::prelude::*;

verus! {

/// The loops that a track has left.
#[derive(Clone, Copy, Debug, PartialEq, Eq, Structural)]
pub enum LoopState {
    /// The track starts over each time it ends, for ever.
    Infinite,
    /// The track starts over this many more times. `Finite(0)` plays to the end
    /// and stops there.
    Finite(usize),
}

impl LoopState {
    /// Whether a track in this state may start over when it reaches its end.
    pub open spec fn permits(self) -> bool {
        self != LoopState::Finite(0)
    }

    /// The state that is left once one loop has been asked for: a finite count
    /// above zero goes down by one, anything else stays.
    pub open spec fn consumed(self) -> LoopState {
        match self {
            LoopState::Infinite => LoopState::Infinite,
            LoopState::Finite(n) => if n == 0 {
                LoopState::Finite(0)
            } else {
                LoopState::Finite((n - 1) as usize)
            },
        }
    }

    /// The state that is left once a loop has been asked for `k` times.
    pub open spec fn consumed_times(self, k: nat) -> LoopState
        decreases k,
    {
        if k == 0 {
            self
        } else {
            self.consumed_times((k - 1) as nat).consumed()
        }
    }

    /// Asks for one more loop. Returns whether the track may start over, and
    /// takes that loop off a finite count.
    pub fn consume_one_loop(&mut self) -> (again: bool)
        ensures
            again == old(self).permits(),
            *final(self) == old(self).consumed(),
    {
        match *self {
            LoopState::Infinite => true,
            LoopState::Finite(n) => {
                if n == 0 {
                    false
                } else {
                    *self = LoopState::Finite(n - 1);
                    true
                }
            },
        }
    }

    /// A track set to loop `n` times starts over exactly `n` times: each of the
    /// first `n` requests is granted and leaves one loop fewer, and every
    /// request after those is denied.
    pub proof fn lemma_finite_loops_run_out(n: usize, k: nat)
        ensures
            k <= n ==> LoopState::Finite(n).consumed_times(k) == LoopState::Finite((n - k) as usize),
            k < n ==> LoopState::Finite(n).consumed_times(k).permits(),
            k >= n ==> LoopState::Finite(n).consumed_times(k) == LoopState::Finite(0),
            k >= n ==> !LoopState::Finite(n).consumed_times(k).permits(),
        decreases k,
    {
        if k > 0 {
            Self::lemma_finite_loops_run_out(n, (k - 1) as nat);
        }
    }

    /// A track set to loop for ever is never denied a loop, however many it has
    /// had.
    pub proof fn lemma_infinite_never_denies(k: nat)
        ensures
            LoopState::Infinite.consumed_times(k) == LoopState::Infinite,
            LoopState::Infinite.consumed_times(k).permits(),
        decreases k,
    {
        if k > 0 {
            Self::lemma_infinite_never_denies((k - 1) as nat);
        }
    }
}

impl Default for LoopState {
    fn default() -> (l: LoopState)
        ensures
            l == LoopState::Finite(0),
    {
        LoopState::Finite(0)
    }
}

} // verus!
