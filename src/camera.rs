//! Attaching the camera to the player: the check runs every frame, and the
//! camera is attached once, on the first frame in which the player exists.
use vstd::prelude::*;

verus! {

/// Remembers whether the camera has been attached.
#[derive(Clone, Copy, Debug, PartialEq, Eq, Structural)]
pub struct CameraSetup {
    pub done: bool,
}

impl CameraSetup {
    /// Nothing attached yet.
    pub fn new() -> (r: CameraSetup)
        ensures
            !r.done,
    {
        CameraSetup { done: false }
    }

    /// Whether this frame attaches the camera.
    pub open spec fn attaches_spec(self, player_found: bool) -> bool {
        !self.done && player_found
    }

    /// The setup after one frame.
    pub open spec fn after_spec(self, player_found: bool) -> CameraSetup {
        CameraSetup { done: self.done || player_found }
    }

    /// Runs the check of one frame: returns `true` when the camera is to be
    /// attached now, which happens when it was not attached before and the
    /// player has been found.
    pub fn step(&mut self, player_found: bool) -> (r: bool)
        ensures
            r == old(self).attaches_spec(player_found),
            *final(self) == old(self).after_spec(player_found),
    {
        if self.done {
            return false;
        }
        if player_found {
            self.done = true;
            true
        } else {
            false
        }
    }
}

/// Once the camera has been attached, no later frame attaches it again.
pub proof fn lemma_attached_at_most_once(s: CameraSetup, first: bool, later: bool)
    requires
        s.attaches_spec(first),
    ensures
        !s.after_spec(first).attaches_spec(later),
        s.after_spec(first).after_spec(later) == s.after_spec(first),
{
}

/// While the player is missing, the check waits and changes nothing.
pub proof fn lemma_waits_for_player(s: CameraSetup)
    ensures
        !s.attaches_spec(false),
        s.after_spec(false) == s,
{
}

} // verus!
