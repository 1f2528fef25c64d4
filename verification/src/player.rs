//! Playback state of the audio player and how the transport buttons change it.
use vstd::prelude::*;

verus! {

/// Playback state observable by the interface.
#[derive(Debug, Clone, Copy, PartialEq, Eq, Structural)]
pub enum PlayState {
    Stopped,
    Playing,
    Paused,
}

impl PlayState {
    /// "Play": a paused player resumes (the result's flag says that the output has to
    /// resume); any other state stays.
    pub fn play(self) -> (r: (PlayState, bool))
        ensures
            self == PlayState::Paused ==> r == (PlayState::Playing, true),
            self != PlayState::Paused ==> r == (self, false),
    {
        if self == PlayState::Paused {
            (PlayState::Playing, true)
        } else {
            (self, false)
        }
    }

    /// "Pause": a playing player pauses (the flag says that the output has to pause);
    /// any other state stays.
    pub fn pause(self) -> (r: (PlayState, bool))
        ensures
            self == PlayState::Playing ==> r == (PlayState::Paused, true),
            self != PlayState::Playing ==> r == (self, false),
    {
        if self == PlayState::Playing {
            (PlayState::Paused, true)
        } else {
            (self, false)
        }
    }

    /// Play/pause: playing pauses, paused plays, stopped stays stopped; the flag says
    /// whether the output changes.
    pub fn toggle_play_pause(self) -> (r: (PlayState, bool))
        ensures
            r.0 == toggled(self),
            r.1 == (self != PlayState::Stopped),
    {
        match self {
            PlayState::Playing => self.pause(),
            PlayState::Paused => self.play(),
            PlayState::Stopped => (self, false),
        }
    }

    /// The track has finished when the player was playing and the output ran empty.
    pub fn is_track_finished(self, output_empty: bool) -> (r: bool)
        ensures
            r == (self == PlayState::Playing && output_empty),
    {
        self == PlayState::Playing && output_empty
    }
}

/// The state after play/pause.
pub open spec fn toggled(s: PlayState) -> PlayState {
    match s {
        PlayState::Playing => PlayState::Paused,
        PlayState::Paused => PlayState::Playing,
        PlayState::Stopped => PlayState::Stopped,
    }
}

/// Play/pause twice brings the player back to the state it was in.
pub proof fn lemma_toggle_twice(s: PlayState)
    ensures
        toggled(toggled(s)) == s,
{
}

} // verus!
