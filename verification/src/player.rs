//! Playback settings shared with the audio back end.
use vstd::prelude::*;
use crate::time::Duration;

verus! {

/// How ReplayGain tags are applied.
#[derive(Debug, Clone, Copy, PartialEq, Eq, Structural)]
pub enum ReplayGainMode {
    /// The tags are ignored.
    Off,
    /// The track gain is applied.
    Track,
    /// The album gain is applied, the track gain where it is missing.
    Album,
}

impl Default for ReplayGainMode {
    fn default() -> (r: ReplayGainMode)
        ensures
            r == ReplayGainMode::Off,
    {
        ReplayGainMode::Off
    }
}

/// Output channel layout.
#[derive(Debug, Clone, Copy, PartialEq, Eq, Structural)]
pub enum ChannelMode {
    /// Negotiated between the output and the file.
    Auto,
    Stereo,
    Mono,
    /// The left channel only.
    Left,
    /// The right channel only.
    Right,
}

impl Default for ChannelMode {
    fn default() -> (r: ChannelMode)
        ensures
            r == ChannelMode::Auto,
    {
        ChannelMode::Auto
    }
}

/// The two points of an A-B loop; the end is after the start.
#[derive(Debug, Clone, Copy)]
pub struct AbLoop {
    pub start: Duration,
    pub end: Duration,
}

/// Another name of [`AbLoop`].
pub type AbLoopPoints = AbLoop;

impl AbLoop {
    /// The loop from `start` to `end`, which must be strictly later.
    pub fn new(start: Duration, end: Duration) -> (r: Option<AbLoop>)
        ensures
            r is Some <==> start.total_nanos() < end.total_nanos(),
            r matches Some(l) ==> l.start == start && l.end == end,
    {
        if start.lt(&end) {
            Some(AbLoop { start, end })
        } else {
            None
        }
    }
}

} // verus!
