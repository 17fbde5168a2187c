//! Control plane for live audio tracks.
//!
//! A [`Track`] owns the playback state of one audio source inside a mixer: its
//! play mode, volume, position and remaining loops. It is driven by exactly one
//! thread, which steps it once per audio frame and drains the commands that any
//! number of [`TrackHandle`]s have queued for it. Handles never touch the
//! track's state; they only enqueue [`TrackCommand`]s, so no lock is needed and
//! the driving thread never waits for a caller.
//!
//! Every state change made on behalf of a command is reported to the event
//! side of the mixer as an [`EventMessage`], on a best-effort basis.

pub mod channel;
pub mod command;
pub mod error;
pub mod handle;
pub mod looping;
pub mod message;
pub mod mode;
pub mod source;
pub mod state;
pub mod time;
pub mod track;

pub use channel::Polled;
pub use command::{TrackAction, TrackCommand};
pub use error::{TrackError, TrackResult};
pub use handle::{StateRequest, TrackHandle};
pub use looping::LoopState;
pub use message::{EventMessage, Interconnect, Outbound, TrackStateChange};
pub use mode::PlayMode;
pub use source::{AudioSource, Metadata};
pub use state::{TrackState, Volume, UNITY_GAIN_BITS};
pub use time::{Timespan, MAX_NANOS, NANOS_PER_MILLI, NANOS_PER_SEC, TIMESTEP_NANOS};
pub use track::{create_player, create_player_with_uuid, Track};
