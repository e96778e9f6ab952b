//! The player facade's shared state.
//!
//! One [`Core`] holds what outlives a single track: the currently loaded
//! music, the play state mirrored for the user interface, and the shared
//! gain cell the device callback reads.  The per-track pipeline — source,
//! ring, device stream, service thread — is owned by the process around
//! this library; this state machine says what each user action leaves
//! behind.

use vstd::prelude::*;

use std::sync::Arc;
use std::sync::atomic::{AtomicU32, Ordering};

use crate::models::PlayState;
use crate::music::Music;
use crate::output::GAIN_ONE_Q16;

verus! {

/// Force a gain read from the shared cell onto the valid grid `[0, 1]`:
/// a value in range passes unchanged, anything above becomes unity.
pub fn clamp_gain(gain_q16: u32) -> (r: u32)
    ensures
        r <= GAIN_ONE_Q16,
        gain_q16 <= GAIN_ONE_Q16 ==> r == gain_q16,
{
    if gain_q16 > GAIN_ONE_Q16 {
        GAIN_ONE_Q16
    } else {
        gain_q16
    }
}

/// The top-level player state: the loaded track, the mirrored play state,
/// and the shared gain.
pub struct Core {
    /// The currently loaded music, if a track is loaded.
    current: Option<Music>,
    /// Play state mirrored for the user interface; the service loop's
    /// authority is the controller.
    state: PlayState,
    /// Q16 gain cell shared with the device callback.
    gain: Arc<AtomicU32>,
}

impl Core {
    /// The mirrored play state.
    pub closed spec fn state_spec(&self) -> PlayState {
        self.state
    }

    /// The currently loaded music, if a track is loaded.
    pub closed spec fn current_spec(&self) -> Option<Music> {
        self.current
    }

    /// Whether a track is loaded.
    pub open spec fn has_current(&self) -> bool {
        self.current_spec() is Some
    }

    /// A fresh core: nothing loaded, stopped, at full volume.
    pub fn new() -> (c: Core)
        ensures
            c.state_spec() == PlayState::Stopped,
            !c.has_current(),
    {
        Core {
            current: None,
            state: PlayState::Stopped,
            gain: Arc::new(AtomicU32::new(GAIN_ONE_Q16)),
        }
    }

    /// Load a new track: it becomes the current one and the core plays.
    /// The caller has already built the track's pipeline; a prior track's
    /// pipeline is torn down by dropping it.
    pub fn append(&mut self, music: Music)
        ensures
            final(self).state_spec() == PlayState::Playing,
            final(self).current_spec() == Some(music),
    {
        self.current = Some(music);
        self.play();
    }

    /// Start or continue playback.
    pub fn play(&mut self)
        ensures
            final(self).state_spec() == PlayState::Playing,
            final(self).current_spec() == old(self).current_spec(),
    {
        self.state = PlayState::Playing;
    }

    /// Pause playback.
    pub fn pause(&mut self)
        ensures
            final(self).state_spec() == PlayState::Paused,
            final(self).current_spec() == old(self).current_spec(),
    {
        self.state = PlayState::Paused;
    }

    /// Stop playback and unload the track.
    pub fn stop(&mut self)
        ensures
            final(self).state_spec() == PlayState::Stopped,
            final(self).current_spec() is None,
    {
        self.state = PlayState::Stopped;
        self.current = None;
    }

    /// The mirrored play state.
    pub fn get_state(&self) -> (s: PlayState)
        ensures
            s == self.state_spec(),
    {
        self.state
    }

    /// The currently loaded music, if any.
    pub fn current(&self) -> (m: Option<&Music>)
        ensures
            match m {
                Some(r) => self.current_spec() == Some(*r),
                None => self.current_spec() is None,
            },
    {
        self.current.as_ref()
    }

    /// Set the shared gain the device callback applies; the grid is Q16,
    /// so `GAIN_ONE_Q16` is full volume and `0` silence.
    pub fn set_gain(&self, gain_q16: u32)
        requires
            gain_q16 <= GAIN_ONE_Q16,
    {
        self.gain.store(gain_q16, Ordering::Relaxed);
    }

    /// A handle on the shared gain cell, for the device callback.
    pub fn gain_handle(&self) -> Arc<AtomicU32> {
        self.gain.clone()
    }
}

} // verus!
