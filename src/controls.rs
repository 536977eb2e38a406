//! Walking and jumping intent from the movement keys.
use vstd::prelude::*;

verus! {

/// The movement keys held during a frame.
#[derive(Clone, Copy, Debug, PartialEq, Eq, Structural)]
pub struct MoveKeys {
    pub up: bool,
    pub down: bool,
    pub left: bool,
    pub right: bool,
    pub jump: bool,
}

/// What the player asks of the character controller in one frame.
///
/// The walk direction is given in the player's own frame: `right` counts
/// steps along the body's right axis (negative: to the left), `back` along
/// its back axis (negative: forward). Opposite keys cancel out.
#[derive(Clone, Copy, Debug, PartialEq, Eq, Structural)]
pub struct ControlIntent {
    pub right: i8,
    pub back: i8,
    pub jump: bool,
}

/// One for a held key, zero otherwise.
pub open spec fn held(b: bool) -> int {
    if b { 1 } else { 0 }
}

/// One unit for each held key along its own axis; opposite keys cancel out.
pub fn control_intent(keys: MoveKeys) -> (r: ControlIntent)
    ensures
        r.right == held(keys.right) - held(keys.left),
        r.back == held(keys.down) - held(keys.up),
        r.jump == keys.jump,
{
    let mut right: i8 = 0;
    let mut back: i8 = 0;
    if keys.up {
        back = back - 1;
    }
    if keys.down {
        back = back + 1;
    }
    if keys.left {
        right = right - 1;
    }
    if keys.right {
        right = right + 1;
    }
    ControlIntent { right, back, jump: keys.jump }
}

} // verus!
