//! Turning the state of the movement keys into a movement intent.

use vstd::prelude::*;

verus! {

/// The keys the default-mode keyboard reader looks at, as pressed (`true`) or not.
#[derive(Clone, Copy, Debug, PartialEq, Eq, Structural)]
pub struct KeyboardSnapshot {
    /// `W`: move forward.
    pub forward: bool,
    /// `S`: move back.
    pub back: bool,
    /// `D`: strafe right.
    pub right: bool,
    /// `A`: strafe left.
    pub left: bool,
    /// `Space`: jump.
    pub jump: bool,
}

/// A movement intent read from the keyboard.
///
/// `strafe` is the local `x` axis (right positive) and `forward` the local `y`
/// axis (forward positive); each is `-1`, `0` or `1`.
#[derive(Clone, Copy, Debug, PartialEq, Eq, Structural)]
pub struct KeyboardIntent {
    pub strafe: i8,
    pub forward: i8,
    pub jump: bool,
}

/// One unit towards `pos` when it is held, one unit back when `neg` is held.
pub open spec fn key_axis(pos: bool, neg: bool) -> int {
    (if pos { 1int } else { 0int }) - (if neg { 1int } else { 0int })
}

/// The intent that a keyboard state stands for.
pub open spec fn intent_of(keys: KeyboardSnapshot) -> KeyboardIntent {
    KeyboardIntent {
        strafe: key_axis(keys.right, keys.left) as i8,
        forward: key_axis(keys.forward, keys.back) as i8,
        jump: keys.jump,
    }
}

/// Reads the movement intent from the key states: forward minus back on the
/// forward axis, right minus left on the strafe axis, and `Space` as the jump
/// request.
pub fn keyboard_intent(keys: &KeyboardSnapshot) -> (intent: KeyboardIntent)
    ensures
        intent.forward as int == key_axis(keys.forward, keys.back),
        intent.strafe as int == key_axis(keys.right, keys.left),
        intent.jump == keys.jump,
        -1 <= intent.forward <= 1,
        -1 <= intent.strafe <= 1,
        intent == intent_of(*keys),
{
    let mut strafe: i8 = 0;
    let mut forward: i8 = 0;
    if keys.forward {
        forward = forward + 1;
    }
    if keys.back {
        forward = forward - 1;
    }
    if keys.right {
        strafe = strafe + 1;
    }
    if keys.left {
        strafe = strafe - 1;
    }
    KeyboardIntent { strafe, forward, jump: keys.jump }
}

/// Holding two opposite keys cancels them out: the axis reads zero, exactly as
/// when neither is held.
pub proof fn opposite_keys_cancel(keys: KeyboardSnapshot)
    requires
        keys.forward == keys.back,
        keys.right == keys.left,
    ensures
        intent_of(keys).forward == 0,
        intent_of(keys).strafe == 0,
{
}

/// A single key of an axis moves one unit its way; the jump request is the
/// jump key.
pub proof fn single_key_moves_one_unit(keys: KeyboardSnapshot)
    ensures
        keys.forward && !keys.back ==> intent_of(keys).forward == 1,
        !keys.forward && keys.back ==> intent_of(keys).forward == -1,
        keys.right && !keys.left ==> intent_of(keys).strafe == 1,
        !keys.right && keys.left ==> intent_of(keys).strafe == -1,
        !keys.forward && !keys.back ==> intent_of(keys).forward == 0,
        !keys.right && !keys.left ==> intent_of(keys).strafe == 0,
        intent_of(keys).jump == keys.jump,
{
}

/// The same keyboard state with the forward and back keys exchanged.
pub open spec fn with_forward_back_swapped(keys: KeyboardSnapshot) -> KeyboardSnapshot {
    KeyboardSnapshot { forward: keys.back, back: keys.forward, ..keys }
}

/// The same keyboard state with the right and left keys exchanged.
pub open spec fn with_right_left_swapped(keys: KeyboardSnapshot) -> KeyboardSnapshot {
    KeyboardSnapshot { right: keys.left, left: keys.right, ..keys }
}

/// Swapping the two keys of an axis reverses the direction on that axis and
/// leaves the other axis and the jump request unchanged.
pub proof fn swapping_keys_reverses_axis(keys: KeyboardSnapshot)
    ensures
        intent_of(with_forward_back_swapped(keys)).forward == -intent_of(keys).forward,
        intent_of(with_forward_back_swapped(keys)).strafe == intent_of(keys).strafe,
        intent_of(with_forward_back_swapped(keys)).jump == keys.jump,
        intent_of(with_right_left_swapped(keys)).strafe == -intent_of(keys).strafe,
        intent_of(with_right_left_swapped(keys)).forward == intent_of(keys).forward,
        intent_of(with_right_left_swapped(keys)).jump == keys.jump,
{
}

} // verus!
