//! The play mode of a track and the rule by which it changes.

use vstd::prelude::*;

verus! {

/// Playback status of a track.
#[derive(Clone, Copy, Debug, PartialEq, Eq, Structural)]
pub enum PlayMode {
    /// The track is playing.
    Play,
    /// The track is paused, and can be resumed.
    Pause,
    /// The track was stopped by request. It cannot be resumed.
    Stop,
    /// The track played to its end. It cannot be resumed.
    End,
}

impl PlayMode {
    /// A track in this mode will never play again.
    pub open spec fn done(self) -> bool {
        self is Stop || self is End
    }

    /// The mode that follows `self` when `requested` is asked for: a finished
    /// track stays as it is, any other track takes the requested mode.
    pub open spec fn next(self, requested: PlayMode) -> PlayMode {
        if self.done() {
            self
        } else {
            requested
        }
    }

    /// The mode reached from `self` by asking for each of `requests` in turn.
    pub open spec fn after(self, requests: Seq<PlayMode>) -> PlayMode
        decreases requests.len(),
    {
        if requests.len() == 0 {
            self
        } else {
            self.after(requests.drop_last()).next(requests.last())
        }
    }

    /// Whether the track has stopped or ended.
    #[verifier::when_used_as_spec(done)]
    pub fn is_done(self) -> (b: bool)
        ensures
            b == self.done(),
    {
        match self {
            PlayMode::Stop | PlayMode::End => true,
            PlayMode::Play | PlayMode::Pause => false,
        }
    }

    /// Asks for the mode `other`, and returns the mode that results.
    pub fn change_to(self, other: PlayMode) -> (m: PlayMode)
        ensures
            m == self.next(other),
    {
        match self {
            PlayMode::Play | PlayMode::Pause => other,
            PlayMode::Stop | PlayMode::End => self,
        }
    }

    /// A finished track ignores every request: whatever is asked of it, and
    /// however often, its mode stays what it was.
    pub proof fn lemma_done_absorbs(self, requests: Seq<PlayMode>)
        requires
            self.done(),
        ensures
            self.after(requests) == self,
        decreases requests.len(),
    {
        if requests.len() > 0 {
            self.lemma_done_absorbs(requests.drop_last());
        }
    }

    /// In any run of requests, once the mode is `Stop` or `End` it does not
    /// change again: if the track is finished after the first `i` requests, it
    /// is in that same mode after the first `j`, for every later `j`.
    pub proof fn lemma_no_change_once_done(self, requests: Seq<PlayMode>, i: int, j: int)
        requires
            0 <= i <= j <= requests.len(),
            self.after(requests.take(i)).done(),
        ensures
            self.after(requests.take(j)) == self.after(requests.take(i)),
        decreases j - i,
    {
        if i < j {
            self.lemma_no_change_once_done(requests, i, j - 1);
            assert(requests.take(j).drop_last() == requests.take(j - 1));
            assert(requests.take(j).last() == requests[j - 1]);
        }
    }
}

impl Default for PlayMode {
    fn default() -> (m: PlayMode)
        ensures
            m == PlayMode::Play,
    {
        PlayMode::Play
    }
}

} // verus!
