//! Movement input: the pressed state of the bound keys becomes a raw
//! direction in the player's local frame, one unit step per axis.
use vstd::prelude::*;

use crate::grab::GrabMode;

verus! {

/// Which of the six bound movement keys are held during a frame.
#[derive(Clone, Copy, Debug, PartialEq, Eq)]
pub struct MoveKeys {
    pub left: bool,
    pub right: bool,
    pub forward: bool,
    pub backward: bool,
    pub ascend: bool,
    pub descend: bool,
}

/// A direction in the player's local frame before normalisation: `x` points
/// right, `y` up and `z` forward, each component in `-1..=1`.
#[derive(Clone, Copy, Debug, PartialEq, Eq)]
pub struct RawDirection {
    pub x: i8,
    pub y: i8,
    pub z: i8,
}

/// The signed contribution of one axis: `+1` for the positive key, `-1` for
/// the negative key, and `0` when both or neither are held.
pub open spec fn axis_value(negative: bool, positive: bool) -> int {
    (if positive { 1int } else { 0int }) - (if negative { 1int } else { 0int })
}

impl MoveKeys {
    /// No key held.
    pub open spec fn none_held(self) -> bool {
        !self.left && !self.right && !self.forward && !self.backward && !self.ascend
            && !self.descend
    }

    /// The raw direction that these keys ask for.
    pub open spec fn direction_spec(self) -> RawDirection {
        RawDirection {
            x: axis_value(self.left, self.right) as i8,
            y: axis_value(self.descend, self.ascend) as i8,
            z: axis_value(self.backward, self.forward) as i8,
        }
    }

    /// Builds the key state from the six pressed flags.
    pub fn new(
        left: bool,
        right: bool,
        forward: bool,
        backward: bool,
        ascend: bool,
        descend: bool,
    ) -> (r: MoveKeys)
        ensures
            r.left == left,
            r.right == right,
            r.forward == forward,
            r.backward == backward,
            r.ascend == ascend,
            r.descend == descend,
    {
        MoveKeys { left, right, forward, backward, ascend, descend }
    }

    /// The state with no key held.
    pub fn released() -> (r: MoveKeys)
        ensures
            r.none_held(),
    {
        MoveKeys::new(false, false, false, false, false, false)
    }

    /// Adds up the held keys: left and right on `x`, descend and ascend on
    /// `y`, backward and forward on `z`.
    pub fn direction(&self) -> (r: RawDirection)
        ensures
            r == self.direction_spec(),
            r.x as int == axis_value(self.left, self.right),
            r.y as int == axis_value(self.descend, self.ascend),
            r.z as int == axis_value(self.backward, self.forward),
    {
        RawDirection {
            x: axis(self.left, self.right),
            y: axis(self.descend, self.ascend),
            z: axis(self.backward, self.forward),
        }
    }
}

impl RawDirection {
    /// Every component is zero.
    pub open spec fn is_zero_spec(self) -> bool {
        self.x == 0 && self.y == 0 && self.z == 0
    }

    /// The squared Euclidean length.
    pub open spec fn len_sq_spec(self) -> int {
        self.x * self.x + self.y * self.y + self.z * self.z
    }

    /// Tells whether every component is zero.
    pub fn is_zero(&self) -> (r: bool)
        ensures
            r == self.is_zero_spec(),
    {
        self.x == 0 && self.y == 0 && self.z == 0
    }

    /// The squared Euclidean length, which normalising divides by.
    pub fn len_sq(&self) -> (r: u8)
        requires
            -1 <= self.x <= 1,
            -1 <= self.y <= 1,
            -1 <= self.z <= 1,
        ensures
            r as int == self.len_sq_spec(),
            r <= 3,
    {
        proof {
            assert(0 <= self.x * self.x <= 1) by (nonlinear_arith)
                requires -1 <= self.x <= 1;
            assert(0 <= self.y * self.y <= 1) by (nonlinear_arith)
                requires -1 <= self.y <= 1;
            assert(0 <= self.z * self.z <= 1) by (nonlinear_arith)
                requires -1 <= self.z <= 1;
        }
        (self.x * self.x + self.y * self.y + self.z * self.z) as u8
    }
}

/// Computes one axis of the raw direction.
pub fn axis(negative: bool, positive: bool) -> (r: i8)
    ensures
        r as int == axis_value(negative, positive),
        -1 <= r <= 1,
{
    let mut v: i8 = 0;
    if negative {
        v = v - 1;
    }
    if positive {
        v = v + 1;
    }
    v
}

/// What a movement update does this frame: `None` leaves the position as it
/// is, `Some(d)` moves along the normalised `d`.
pub open spec fn plan_move_spec(mode: GrabMode, keys: MoveKeys) -> Option<RawDirection> {
    if mode == GrabMode::Unlocked || keys.direction_spec().is_zero_spec() {
        None
    } else {
        Some(keys.direction_spec())
    }
}

/// Decides the movement of one frame. Nothing moves while the cursor is not
/// grabbed, nor when the held keys cancel out or none is held; otherwise the
/// raw direction is handed on, never zero.
pub fn plan_move(mode: GrabMode, keys: &MoveKeys) -> (r: Option<RawDirection>)
    ensures
        r == plan_move_spec(mode, *keys),
        keys.none_held() ==> r.is_none(),
        mode == GrabMode::Unlocked ==> r.is_none(),
        r.is_some() <==> (mode != GrabMode::Unlocked && !keys.direction_spec().is_zero_spec()),
        r matches Some(d) ==> d == keys.direction_spec() && 1 <= d.len_sq_spec() <= 3,
{
    if mode == GrabMode::Unlocked {
        return None;
    }
    let d = keys.direction();
    if d.is_zero() {
        None
    } else {
        proof {
            assert(0 <= d.x * d.x <= 1) by (nonlinear_arith)
                requires -1 <= d.x <= 1;
            assert(0 <= d.y * d.y <= 1) by (nonlinear_arith)
                requires -1 <= d.y <= 1;
            assert(0 <= d.z * d.z <= 1) by (nonlinear_arith)
                requires -1 <= d.z <= 1;
            assert(d.x != 0 ==> d.x * d.x >= 1) by (nonlinear_arith);
            assert(d.y != 0 ==> d.y * d.y >= 1) by (nonlinear_arith);
            assert(d.z != 0 ==> d.z * d.z >= 1) by (nonlinear_arith);
        }
        Some(d)
    }
}

/// With no key held, a movement update leaves the position unchanged,
/// whatever the cursor state.
pub proof fn lemma_released_keys_do_not_move(mode: GrabMode, keys: MoveKeys)
    requires
        keys.none_held(),
    ensures
        plan_move_spec(mode, keys) is None,
{
}

/// Whenever a movement update moves, its raw direction is nonzero, so that
/// normalising it is well defined and gives a unit vector.
pub proof fn lemma_moving_direction_nonzero(mode: GrabMode, keys: MoveKeys)
    ensures
        plan_move_spec(mode, keys) matches Some(d) ==> !d.is_zero_spec() && d.len_sq_spec() >= 1,
{
    let d = keys.direction_spec();
    assert(d.x * d.x >= 0 && d.y * d.y >= 0 && d.z * d.z >= 0) by (nonlinear_arith);
    assert(d.x != 0 ==> d.x * d.x >= 1) by (nonlinear_arith);
    assert(d.y != 0 ==> d.y * d.y >= 1) by (nonlinear_arith);
    assert(d.z != 0 ==> d.z * d.z >= 1) by (nonlinear_arith);
}

} // verus!
