//! Control state machine for the service thread.
//!
//! A [`Controller`] carries the command the service thread reads at the head
//! of every loop iteration.  This module verifies the transition semantics;
//! the process that shares one controller between threads wraps it in a lock
//! and a condition variable outside this library.

use vstd::prelude::*;

use crate::models::PlayState;

verus! {

/// Command state of the service thread.
#[derive(Clone, Copy, PartialEq, Eq, Structural, Debug)]
pub enum ServiceState {
    /// Decode and enqueue samples.
    Playing,
    /// Hold: produce nothing until told to play again.
    Paused,
    /// Exit the service loop.
    Stopped,
    /// Reposition the source to the given whole second, then play on.
    /// Transient: only the service thread consumes it.
    Seek(u64),
}

/// What `play` leaves behind, whatever held before.
pub open spec fn play_transition(s: ServiceState) -> ServiceState {
    ServiceState::Playing
}

/// What `pause` leaves behind, whatever held before.
pub open spec fn pause_transition(s: ServiceState) -> ServiceState {
    ServiceState::Paused
}

/// The decode thread controller: holds the current command.
pub struct Controller {
    state: ServiceState,
}

impl View for Controller {
    type V = ServiceState;

    closed spec fn view(&self) -> ServiceState {
        self.state
    }
}

impl Controller {
    /// Create a new controller, ready to play.
    pub fn new() -> (c: Controller)
        ensures
            c@ == ServiceState::Playing,
    {
        Controller { state: ServiceState::Playing }
    }

    /// Set state to resume (play).
    pub fn play(&mut self)
        ensures
            final(self)@ == play_transition(old(self)@),
    {
        self.state = ServiceState::Playing;
    }

    /// Set state to pause.
    pub fn pause(&mut self)
        ensures
            final(self)@ == pause_transition(old(self)@),
    {
        self.state = ServiceState::Paused;
    }

    /// Set state to stop.
    pub fn stop(&mut self)
        ensures
            final(self)@ == ServiceState::Stopped,
    {
        self.state = ServiceState::Stopped;
    }

    /// Ask the service thread to seek to the given second.
    pub fn seek_to(&mut self, seek_to: u64)
        ensures
            final(self)@ == ServiceState::Seek(seek_to),
    {
        self.state = ServiceState::Seek(seek_to);
    }

    /// Snapshot read of the current command.
    pub fn state(&self) -> (s: ServiceState)
        ensures
            s == self@,
    {
        self.state
    }

    /// Whether the service thread has to hold before its next step.
    pub fn is_paused(&self) -> (b: bool)
        ensures
            b == (self@ == ServiceState::Paused),
    {
        self.state == ServiceState::Paused
    }
}

/// Pausing twice leaves exactly the state pausing once leaves: repeated
/// `pause` calls cause no state drift.
pub proof fn lemma_pause_idempotent(s: ServiceState)
    ensures
        pause_transition(pause_transition(s)) == pause_transition(s),
{
}

/// Playing again while already playing changes nothing: repeated `play`
/// calls cause no state drift.
pub proof fn lemma_play_idempotent(s: ServiceState)
    ensures
        play_transition(play_transition(s)) == play_transition(s),
        play_transition(ServiceState::Playing) == ServiceState::Playing,
{
}

/// Older twin of [`Controller`] kept for its callers: a control cell whose
/// play state starts out playing.
pub struct PlayerControl {
    state: PlayState,
}

impl View for PlayerControl {
    type V = PlayState;

    closed spec fn view(&self) -> PlayState {
        self.state
    }
}

impl PlayerControl {
    /// Create a new control cell, ready to play.
    pub fn new() -> (c: PlayerControl)
        ensures
            c@ == PlayState::Playing,
    {
        PlayerControl { state: PlayState::Playing }
    }

    /// Set the play state.
    pub fn set(&mut self, s: PlayState)
        ensures
            final(self)@ == s,
    {
        self.state = s;
    }

    /// Snapshot read of the play state.
    pub fn get(&self) -> (s: PlayState)
        ensures
            s == self@,
    {
        self.state
    }
}

} // verus!
