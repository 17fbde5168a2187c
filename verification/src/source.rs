//! What a track asks of the audio source it plays.

use vstd::prelude::*;
use crate::time::Timespan;

verus! {

/// What is known about a piece of audio, for display.
#[derive(Debug, Default, PartialEq, Eq)]
pub struct Metadata {
    /// Title of the piece.
    pub title: Option<String>,
    /// Who made it.
    pub artist: Option<String>,
    /// Where it was fetched from.
    pub source_url: Option<String>,
    /// Number of audio channels.
    pub channels: Option<u8>,
    /// Samples per second.
    pub sample_rate: Option<u32>,
    /// Length of the piece.
    pub duration: Option<Timespan>,
}

impl Clone for Metadata {
    fn clone(&self) -> (m: Metadata)
        ensures
            m == *self,
    {
        Metadata {
            title: self.title.clone(),
            artist: self.artist.clone(),
            source_url: self.source_url.clone(),
            channels: self.channels,
            sample_rate: self.sample_rate,
            duration: self.duration,
        }
    }
}

/// A stream of audio that a track can play.
///
/// A track decides nothing about decoding; it asks its source these four
/// things and is verified for every answer. An implementation promises
/// nothing beyond the types.
pub trait AudioSource {
    /// Whether the source can jump to a position.
    fn is_seekable(&self) -> bool;

    /// Jumps to `pos`, or as close to it as the source can get, and returns the
    /// position reached. Returns `None` where the source cannot seek.
    fn seek_time(&mut self, pos: Timespan) -> Option<Timespan>;

    /// Gets the source ready to play now, if it had put that off.
    fn make_playable(&mut self);

    /// A copy of what is known about the audio.
    fn metadata(&self) -> Metadata;
}

} // verus!
