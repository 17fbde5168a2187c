//! The observable state of a track, as a plain value.

use vstd::prelude::*;
use crate::looping::LoopState;
use crate::mode::PlayMode;
use crate::time::{Timespan, MAX_NANOS, TIMESTEP_NANOS};

verus! {

/// Bit pattern of the gain `1.0`.
pub const UNITY_GAIN_BITS: u32 = 0x3f80_0000;

/// The gain applied to a track's samples, held as the bit pattern of a
/// single-precision IEEE 754 number. No range is enforced: a gain above one
/// amplifies.
#[derive(Clone, Copy, Debug, PartialEq, Eq, Structural)]
pub struct Volume {
    /// The bits of the gain.
    pub bits: u32,
}

impl Volume {
    /// The gain `1.0`, which leaves samples as they are.
    pub open spec fn unity() -> Volume {
        Volume { bits: UNITY_GAIN_BITS }
    }

    /// The gain with the given bit pattern.
    pub fn from_bits(bits: u32) -> (v: Volume)
        ensures
            v == (Volume { bits }),
    {
        Volume { bits }
    }

    /// The bit pattern of this gain.
    pub fn to_bits(self) -> (bits: u32)
        ensures
            bits == self.bits,
    {
        self.bits
    }
}

impl Default for Volume {
    fn default() -> (v: Volume)
        ensures
            v == Volume::unity(),
    {
        Volume { bits: UNITY_GAIN_BITS }
    }
}

/// A copy of everything about a track that can be observed from outside, as it
/// was at one instant.
#[derive(Clone, Copy, Debug, PartialEq, Eq, Structural)]
pub struct TrackState {
    /// Play mode of the track.
    pub playing: PlayMode,
    /// Gain applied to the track.
    pub volume: Volume,
    /// Time played within the current loop.
    pub position: Timespan,
    /// Time played since the track was made, over all loops.
    pub play_time: Timespan,
    /// Loops that are left.
    pub loops: LoopState,
}

impl TrackState {
    /// The state of a track that has just been made: playing from the start at
    /// unit gain, with no loops.
    pub open spec fn initial() -> TrackState {
        TrackState {
            playing: PlayMode::Play,
            volume: Volume::unity(),
            position: Timespan::of_nanos(0),
            play_time: Timespan::of_nanos(0),
            loops: LoopState::Finite(0),
        }
    }

    /// This state with the play mode replaced.
    pub open spec fn with_mode(self, playing: PlayMode) -> TrackState {
        TrackState { playing, ..self }
    }

    /// This state with the gain replaced.
    pub open spec fn with_volume(self, volume: Volume) -> TrackState {
        TrackState { volume, ..self }
    }

    /// This state with the position replaced.
    pub open spec fn with_position(self, position: Timespan) -> TrackState {
        TrackState { position, ..self }
    }

    /// This state with the loops replaced.
    pub open spec fn with_loops(self, loops: LoopState) -> TrackState {
        TrackState { loops, ..self }
    }

    /// Whether one more frame fits: neither clock would pass [`MAX_NANOS`].
    pub open spec fn can_step(self) -> bool {
        &&& self.position.nanos() + TIMESTEP_NANOS <= MAX_NANOS
        &&& self.play_time.nanos() + TIMESTEP_NANOS <= MAX_NANOS
    }

    /// This state one frame later: both clocks have moved on by one frame, and
    /// nothing else has changed.
    pub open spec fn stepped(self) -> TrackState {
        TrackState {
            position: self.position.plus(Timespan::frame()),
            play_time: self.play_time.plus(Timespan::frame()),
            ..self
        }
    }

    /// This state `n` frames later.
    pub open spec fn stepped_times(self, n: nat) -> TrackState
        decreases n,
    {
        if n == 0 {
            self
        } else {
            self.stepped_times((n - 1) as nat).stepped()
        }
    }

    /// Stepping a track `n` times moves both of its clocks on by exactly `n`
    /// frames, and changes nothing else, as long as the clocks have room for
    /// that.
    pub proof fn lemma_steps_add_up(self, n: nat)
        requires
            self.position.nanos() + n * TIMESTEP_NANOS <= MAX_NANOS,
            self.play_time.nanos() + n * TIMESTEP_NANOS <= MAX_NANOS,
        ensures
            self.stepped_times(n).position.nanos() == self.position.nanos() + n * TIMESTEP_NANOS,
            self.stepped_times(n).play_time.nanos() == self.play_time.nanos() + n * TIMESTEP_NANOS,
            self.stepped_times(n).playing == self.playing,
            self.stepped_times(n).volume == self.volume,
            self.stepped_times(n).loops == self.loops,
            n > 0 ==> self.stepped_times((n - 1) as nat).can_step(),
        decreases n,
    {
        broadcast use Timespan::lemma_of_nanos;
        if n > 0 {
            let m = (n - 1) as nat;
            assert(n * TIMESTEP_NANOS == m * TIMESTEP_NANOS + TIMESTEP_NANOS) by (nonlinear_arith)
                requires
                    m == n - 1,
            ;
            self.lemma_steps_add_up(m);
        }
    }
}

} // verus!
