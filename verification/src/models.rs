//! Shared value types of the playback core.

use vstd::prelude::*;

verus! {

/// Number of samples the shared ring holds: about half a second of stereo
/// audio at 48 kHz.  It must be at least one decoded packet.
pub const RINGBUF_SIZE: usize = 48000;

/// Play state mirrored for the user interface.
#[derive(Clone, Copy, PartialEq, Eq, Structural, Debug)]
pub enum PlayState {
    Playing,
    Paused,
    Stopped,
}

/// Events the service thread sends to its subscriber.
#[derive(Clone, Copy, PartialEq, Eq, Structural, Debug)]
pub enum Events {
    /// The playback position moved; the subscriber may refresh its display.
    PlaytimeRefresh,
    /// The track was decoded to its end and the ring has drained.
    PlayFinished,
}

} // verus!
