//! Keyboard-driven camera movement: which way the camera translates for
//! the movement keys that are held this tick.
//!
//! The translation itself multiplies these directions by the camera's
//! float speed and folds them into the view isometry; floats cannot be
//! verified, so that step stays with the caller. What is verified is the
//! decision: the sign of each axis from the held keys, with the same
//! precedence the renderer uses (`W` wins over `S`, `A` over `D`, `Q`
//! over `E`).

use vstd::prelude::*;

verus! {

/// The movement keys that are held during one update tick.
#[derive(Clone, Copy, Debug, Default)]
pub struct HeldKeys {
    /// `W`: move along positive z.
    pub key_w: bool,
    /// `S`: move along negative z.
    pub key_s: bool,
    /// `A`: move along positive x.
    pub key_a: bool,
    /// `D`: move along negative x.
    pub key_d: bool,
    /// `Q`: move along positive y.
    pub key_q: bool,
    /// `E`: move along negative y.
    pub key_e: bool,
}

/// Direction of one camera axis for one update tick: `1`, `-1` or `0`
/// per axis, to be scaled by the camera's speed.
#[derive(Clone, Copy, Debug, PartialEq, Eq, Structural)]
pub struct MoveDir {
    /// Sign of the x translation.
    pub x: i8,
    /// Sign of the y translation.
    pub y: i8,
    /// Sign of the z translation.
    pub z: i8,
}

/// The sign an axis gets from its two keys: the positive key wins over
/// the negative one, and neither held leaves the axis still.
pub open spec fn axis_sign(pos: bool, neg: bool) -> int {
    if pos {
        1
    } else if neg {
        -1
    } else {
        0
    }
}

/// Decide the sign of one axis from its two keys.
pub fn axis_dir(pos: bool, neg: bool) -> (r: i8)
    ensures
        r as int == axis_sign(pos, neg),
{
    if pos {
        1
    } else if neg {
        -1
    } else {
        0
    }
}

/// Decide the direction of all three camera axes from the held keys:
/// `W`/`S` drive z, `A`/`D` drive x, `Q`/`E` drive y, the first key of
/// each pair winning when both are held.
pub fn move_dirs(keys: &HeldKeys) -> (r: MoveDir)
    ensures
        r.x as int == axis_sign(keys.key_a, keys.key_d),
        r.y as int == axis_sign(keys.key_q, keys.key_e),
        r.z as int == axis_sign(keys.key_w, keys.key_s),
{
    MoveDir {
        x: axis_dir(keys.key_a, keys.key_d),
        y: axis_dir(keys.key_q, keys.key_e),
        z: axis_dir(keys.key_w, keys.key_s),
    }
}

} // verus!
