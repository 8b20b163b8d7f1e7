//! Decisions of the first-person camera controller.
//!
//! Each frame the controller first turns the camera by the mouse motion
//! and then moves it by the keys that are held. Turning and moving are
//! geometry, done by the caller; what is decided here is which camera is
//! driven, whether a pitched orientation may be adopted, and which way the
//! keys point.

use vstd::prelude::*;

use crate::scalar::Scalar;

verus! {

/// Bit pattern of the smallest lateral-axis magnitude that is not accepted:
/// one tenth, rounded to single precision.
pub const MIN_LATERAL_BITS: u32 = 0x3dcc_cccd;

/// Distance the camera covers per second while a movement key is held, in
/// world units.
pub const MOVE_SPEED: u32 = 10;

/// An orientation together with the magnitude of its lateral axis, which is
/// the cross product of its forward direction and the world's up direction.
/// The magnitude shrinks to zero as the forward direction nears the
/// vertical.
#[derive(Clone, Copy, Debug, PartialEq, Eq)]
pub struct Look<P> {
    pub pose: P,
    pub lateral: Scalar,
}

/// Whether a lateral-axis magnitude keeps the forward direction clear of
/// the vertical: it must exceed one tenth.
pub open spec fn clear_of_vertical(lateral: Scalar) -> bool {
    lateral.exceeds(Scalar { bits: MIN_LATERAL_BITS })
}

/// The orientation a mouse motion leaves the camera with: the pitched
/// candidate if it is clear of the vertical, otherwise the orientation that
/// was only turned about the vertical axis.
pub open spec fn settled<P>(yawed: Look<P>, pitched: Look<P>) -> Look<P> {
    if clear_of_vertical(pitched.lateral) {
        pitched
    } else {
        yawed
    }
}

/// Tests whether an orientation with the given lateral-axis magnitude may
/// be adopted.
pub fn pitch_allowed(lateral: Scalar) -> (allowed: bool)
    ensures
        allowed == clear_of_vertical(lateral),
{
    lateral.gt(Scalar { bits: MIN_LATERAL_BITS })
}

/// Settles one mouse motion. `yawed` is the camera's orientation turned
/// about the vertical axis by the horizontal motion; `pitched` is `yawed`
/// turned further about its lateral axis by the vertical motion. The
/// pitch is discarded when it would bring the forward direction too close
/// to the vertical.
pub fn settle_look<P>(yawed: Look<P>, pitched: Look<P>) -> (look: Look<P>)
    ensures
        look == settled(yawed, pitched),
{
    if pitch_allowed(pitched.lateral) {
        pitched
    } else {
        yawed
    }
}

/// Pitch never takes the camera into the degenerate cone: if the
/// orientation that was only turned about the vertical axis is clear of the
/// vertical, so is the orientation the motion settles on, whatever the
/// pitched candidate was.
pub proof fn lemma_look_stays_clear<P>(yawed: Look<P>, pitched: Look<P>)
    requires
        clear_of_vertical(yawed.lateral),
    ensures
        clear_of_vertical(settled(yawed, pitched).lateral),
{
}

/// A pitched orientation is adopted only when it is clear of the vertical.
pub proof fn lemma_pitch_adopted_only_when_clear<P>(yawed: Look<P>, pitched: Look<P>)
    ensures
        settled(yawed, pitched) == pitched || settled(yawed, pitched) == yawed,
        !clear_of_vertical(pitched.lateral) ==> settled(yawed, pitched) == yawed,
{
}

/// The orientation after the first `n` of a run of mouse motions, each
/// given as the pair of its yawed and its pitched orientation: the start
/// before any motion, and after that what the latest motion settled on.
pub open spec fn look_after<P>(
    start: Look<P>,
    motions: Seq<(Look<P>, Look<P>)>,
    n: int,
) -> Look<P> {
    if n <= 0 {
        start
    } else {
        settled(motions[n - 1].0, motions[n - 1].1)
    }
}

/// However often the mouse is moved, the camera stays out of the
/// degenerate cone. Let the camera start clear of the vertical, and let
/// each motion's yawed orientation be clear whenever the orientation it
/// was turned from is, as turning about the vertical axis ensures. Then
/// the orientation after every motion of the run is clear of the vertical.
pub proof fn lemma_looks_stay_clear<P>(
    start: Look<P>,
    motions: Seq<(Look<P>, Look<P>)>,
    n: int,
)
    requires
        clear_of_vertical(start.lateral),
        forall|i: int|
            0 <= i < motions.len() && clear_of_vertical(
                (#[trigger] look_after(start, motions, i)).lateral,
            ) ==> clear_of_vertical(motions[i].0.lateral),
        0 <= n <= motions.len(),
    ensures
        clear_of_vertical(look_after(start, motions, n).lateral),
    decreases n,
{
    if n > 0 {
        lemma_looks_stay_clear(start, motions, n - 1);
        assert(clear_of_vertical(look_after(start, motions, n - 1).lateral));
        lemma_look_stays_clear(motions[n - 1].0, motions[n - 1].1);
    }
}

/// Which of the four movement keys are held.
#[derive(Clone, Copy, Debug, PartialEq, Eq, Structural)]
pub struct MoveKeys {
    pub forward: bool,
    pub backward: bool,
    pub strafe_left: bool,
    pub strafe_right: bool,
}

/// The direction the held keys point in, before it is normalised: `y`
/// along the camera's forward axis and `x` along its lateral axis.
#[derive(Clone, Copy, Debug, PartialEq, Eq, Structural)]
pub struct MoveInput {
    pub x: i8,
    pub y: i8,
}

/// One axis of the input: opposite keys cancel.
pub open spec fn axis(positive: bool, negative: bool) -> int {
    (if positive { 1int } else { 0int }) - (if negative { 1int } else { 0int })
}

/// The direction the held keys point in.
pub open spec fn input_of(keys: MoveKeys) -> MoveInput {
    MoveInput {
        x: axis(keys.strafe_right, keys.strafe_left) as i8,
        y: axis(keys.forward, keys.backward) as i8,
    }
}

/// Reads the movement keys: forward and backward add to `y`, strafing
/// right and left to `x`, and keys held against each other cancel.
pub fn move_input(keys: MoveKeys) -> (input: MoveInput)
    ensures
        input == input_of(keys),
{
    let mut x: i8 = 0;
    let mut y: i8 = 0;
    if keys.forward {
        y = 1;
    }
    if keys.backward {
        y = y - 1;
    }
    if keys.strafe_left {
        x = x - 1;
    }
    if keys.strafe_right {
        x = x + 1;
    }
    MoveInput { x, y }
}

/// The camera that input drives, among `count` cameras in the order the
/// scene lists them: the first, if there is any.
pub fn driven_camera(count: usize) -> (driven: Option<usize>)
    ensures
        count == 0 ==> driven is None,
        count > 0 ==> driven == Some(0usize),
{
    if count == 0 {
        None
    } else {
        Some(0)
    }
}

} // verus!
