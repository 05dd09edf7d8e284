//! Cursor grab driven by window focus.
//!
//! Focus gained grabs the cursor (locked and hidden); focus lost frees it
//! (unconstrained and visible). Of the focus notifications that arrive in
//! one update, only the last one counts. A manual toggle inverts the stored
//! focus flag and grabs or frees the cursor to match.
use vstd::prelude::*;

verus! {

/// How the cursor is held by the window.
#[derive(Clone, Copy, Debug, PartialEq, Eq, Structural)]
pub enum GrabMode {
    /// The cursor moves freely.
    Unlocked,
    /// The cursor is kept inside the window.
    Confined,
    /// The cursor is locked in place.
    Locked,
}

/// The two states of the grab machine.
#[derive(Clone, Copy, Debug, PartialEq, Eq, Structural)]
pub enum CursorState {
    /// Locked and hidden, for mouse look.
    Grabbed,
    /// Visible and unconstrained.
    Free,
}

/// The cursor settings of a window.
#[derive(Clone, Copy, Debug, PartialEq, Eq, Structural)]
pub struct CursorOptions {
    pub grab_mode: GrabMode,
    pub visible: bool,
}

/// The state that a focus flag asks for.
pub open spec fn state_for_spec(focused: bool) -> CursorState {
    if focused {
        CursorState::Grabbed
    } else {
        CursorState::Free
    }
}

/// Grabbed when focused, free otherwise.
pub fn state_for(focused: bool) -> (r: CursorState)
    ensures
        r == state_for_spec(focused),
{
    if focused {
        CursorState::Grabbed
    } else {
        CursorState::Free
    }
}

impl CursorState {
    /// The window settings that realise this state.
    pub open spec fn options_spec(self) -> CursorOptions {
        match self {
            CursorState::Grabbed => CursorOptions { grab_mode: GrabMode::Locked, visible: false },
            CursorState::Free => CursorOptions { grab_mode: GrabMode::Unlocked, visible: true },
        }
    }

    /// Locked and hidden when grabbed; unconstrained and visible when free.
    pub fn options(&self) -> (r: CursorOptions)
        ensures
            r == self.options_spec(),
    {
        match self {
            CursorState::Grabbed => CursorOptions { grab_mode: GrabMode::Locked, visible: false },
            CursorState::Free => CursorOptions { grab_mode: GrabMode::Unlocked, visible: true },
        }
    }
}

impl CursorOptions {
    /// The state these settings stand for: grabbed exactly when the cursor is
    /// locked and hidden.
    pub open spec fn state_spec(self) -> CursorState {
        if self.grab_mode == GrabMode::Locked && !self.visible {
            CursorState::Grabbed
        } else {
            CursorState::Free
        }
    }

    /// Reads the state back from the settings.
    pub fn state(&self) -> (r: CursorState)
        ensures
            r == self.state_spec(),
    {
        if self.grab_mode == GrabMode::Locked && !self.visible {
            CursorState::Grabbed
        } else {
            CursorState::Free
        }
    }
}

/// The focus flag of the last notification, if any arrived.
pub open spec fn last_focus_spec(events: Seq<bool>) -> Option<bool> {
    if events.len() == 0 {
        None
    } else {
        Some(events.last())
    }
}

/// Picks the focus notification that counts among those of one update: the
/// last one; the older ones are dropped.
pub fn last_focus(events: &Vec<bool>) -> (r: Option<bool>)
    ensures
        r == last_focus_spec(events@),
{
    if events.len() == 0 {
        None
    } else {
        Some(events[events.len() - 1])
    }
}

/// The window's focus flag together with its cursor settings.
#[derive(Clone, Copy, Debug, PartialEq, Eq, Structural)]
pub struct GrabController {
    pub focused: bool,
    pub cursor: CursorOptions,
}

impl GrabController {
    /// The controller after one update that delivered `events`.
    pub open spec fn after_events_spec(self, events: Seq<bool>) -> GrabController {
        match last_focus_spec(events) {
            None => self,
            Some(f) => GrabController { focused: f, cursor: state_for_spec(f).options_spec() },
        }
    }

    /// The controller after a manual toggle.
    pub open spec fn after_toggle_spec(self) -> GrabController {
        GrabController {
            focused: !self.focused,
            cursor: state_for_spec(!self.focused).options_spec(),
        }
    }

    /// The current state of the grab machine.
    pub open spec fn state_spec(self) -> CursorState {
        self.cursor.state_spec()
    }

    /// Starts from a focus flag and the window's current cursor settings.
    pub fn new(focused: bool, cursor: CursorOptions) -> (r: GrabController)
        ensures
            r.focused == focused,
            r.cursor == cursor,
    {
        GrabController { focused, cursor }
    }

    /// The current state of the grab machine.
    pub fn state(&self) -> (r: CursorState)
        ensures
            r == self.state_spec(),
    {
        self.cursor.state()
    }

    /// Whether pointer motion may turn the player: only while focused.
    pub fn can_look(&self) -> (r: bool)
        ensures
            r == self.focused,
    {
        self.focused
    }

    /// Handles the focus notifications of one update. With none, nothing
    /// changes and `None` comes back; otherwise the last one sets the focus
    /// flag and the cursor, and the state entered comes back.
    pub fn on_focus_events(&mut self, events: &Vec<bool>) -> (r: Option<CursorState>)
        ensures
            *final(self) == old(self).after_events_spec(events@),
            r == (match last_focus_spec(events@) {
                None => None,
                Some(f) => Some(state_for_spec(f)),
            }),
            r matches Some(s) ==> final(self).state_spec() == s,
    {
        match last_focus(events) {
            None => None,
            Some(f) => {
                let s = state_for(f);
                self.focused = f;
                self.cursor = s.options();
                Some(s)
            },
        }
    }

    /// Inverts the focus flag and grabs or frees the cursor to match; returns
    /// the state entered.
    pub fn toggle(&mut self) -> (r: CursorState)
        ensures
            *final(self) == old(self).after_toggle_spec(),
            final(self).focused == !old(self).focused,
            r == state_for_spec(!old(self).focused),
            final(self).state_spec() == r,
    {
        let f = !self.focused;
        let s = state_for(f);
        self.focused = f;
        self.cursor = s.options();
        s
    }
}

/// Settings made for a state read back as that state.
pub proof fn lemma_options_round_trip(s: CursorState)
    ensures
        s.options_spec().state_spec() == s,
{
}

/// A focus-lost notification in one update and a focus-gained notification
/// in the next one take the machine to `Free` and then to `Grabbed`, from
/// any starting point.
pub proof fn lemma_lost_then_gained(c: GrabController)
    ensures
        c.after_events_spec(seq![false]).state_spec() == CursorState::Free,
        c.after_events_spec(seq![false]).after_events_spec(seq![true]).state_spec()
            == CursorState::Grabbed,
{
    assert(seq![false].last() == false);
    assert(seq![true].last() == true);
}

/// Only the last notification of an update counts: whatever came before it
/// in the same update leaves no trace.
pub proof fn lemma_last_notification_wins(c: GrabController, earlier: Seq<bool>, f: bool)
    ensures
        c.after_events_spec(earlier.push(f)) == c.after_events_spec(seq![f]),
{
    assert(earlier.push(f).last() == f);
    assert(seq![f].last() == f);
}

/// Toggling twice restores the focus flag and leaves the cursor as the flag
/// asks.
pub proof fn lemma_toggle_twice(c: GrabController)
    ensures
        c.after_toggle_spec().after_toggle_spec().focused == c.focused,
        c.after_toggle_spec().after_toggle_spec().state_spec() == state_for_spec(c.focused),
{
}

/// The state after an update with notifications follows the focus flag.
pub proof fn lemma_state_follows_focus(c: GrabController, events: Seq<bool>)
    requires
        events.len() > 0,
    ensures
        c.after_events_spec(events).state_spec() == state_for_spec(
            c.after_events_spec(events).focused,
        ),
        c.after_events_spec(events).focused == events.last(),
{
}

} // verus!
