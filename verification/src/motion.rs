//! From held keys to a movement vector, and from the vector to pointer
//! actions.

use vstd::prelude::*;
use crate::config::{Config, ConfigView};
use crate::state::ControlState;
use crate::translator::Action;

verus! {

/// The pointer's movement for one tick.
#[derive(Clone, Copy, Debug, PartialEq, Eq, Structural)]
pub struct MotionVector {
    pub dx: i64,
    pub dy: i64,
}

/// The sign of an axis: +1 when only the positive key is held, -1 when only
/// the negative key is held, 0 when neither or both are.
pub open spec fn axis_sign(positive: bool, negative: bool) -> int {
    (if positive {
        1int
    } else {
        0int
    }) - (if negative {
        1int
    } else {
        0int
    })
}

/// Movement along one axis: the sign times the base speed, and that times the
/// shift multiplier when the modifier is held.
pub open spec fn axis_delta(
    positive: bool,
    negative: bool,
    modifier: bool,
    base_speed: int,
    shift_multiplier: int,
) -> int {
    let unmodified = axis_sign(positive, negative) * base_speed;
    if modifier {
        unmodified * shift_multiplier
    } else {
        unmodified
    }
}

/// Horizontal movement: right is positive, left is negative.
pub open spec fn motion_dx(state: ControlState, config: ConfigView) -> int {
    axis_delta(
        state.right,
        state.left,
        state.modifier,
        config.base_speed,
        config.shift_multiplier,
    )
}

/// Vertical movement: down is positive, up is negative.
pub open spec fn motion_dy(state: ControlState, config: ConfigView) -> int {
    axis_delta(state.down, state.up, state.modifier, config.base_speed, config.shift_multiplier)
}

/// The movement of both axes as a vector.
pub open spec fn motion_vector(state: ControlState, config: ConfigView) -> MotionVector {
    MotionVector { dx: motion_dx(state, config) as i64, dy: motion_dy(state, config) as i64 }
}

/// The movement vector for the held keys. Defined for every state and every
/// configuration: the result is wide enough for any product of a speed and a
/// multiplier, so both components are the exact integers of the formula.
pub fn compute(state: ControlState, config: &Config) -> (motion: MotionVector)
    ensures
        motion.dx == motion_dx(state, config@),
        motion.dy == motion_dy(state, config@),
        motion == motion_vector(state, config@),
{
    let base: i64 = config.base_speed as i64;
    let multiplier: i64 = config.shift_multiplier as i64;
    let mut dx: i64 = 0;
    let mut dy: i64 = 0;
    if state.left {
        dx = dx - base;
    }
    if state.right {
        dx = dx + base;
    }
    if state.up {
        dy = dy - base;
    }
    if state.down {
        dy = dy + base;
    }
    proof {
        lemma_sign_times_speed(state.right, state.left, base as int);
        lemma_sign_times_speed(state.down, state.up, base as int);
    }
    if state.modifier {
        proof {
            lemma_product_fits(dx as int, multiplier as int);
            lemma_product_fits(dy as int, multiplier as int);
        }
        dx = dx * multiplier;
        dy = dy * multiplier;
    }
    MotionVector { dx, dy }
}

proof fn lemma_sign_times_speed(positive: bool, negative: bool, base_speed: int)
    by (nonlinear_arith)
    ensures
        axis_sign(positive, negative) * base_speed == (if positive {
            base_speed
        } else {
            0
        }) - (if negative {
            base_speed
        } else {
            0
        }),
{
}

proof fn lemma_product_fits(delta: int, multiplier: int)
    by (nonlinear_arith)
    requires
        -0x8000_0000 <= delta <= 0x8000_0000,
        -0x8000_0000 <= multiplier <= 0x8000_0000,
    ensures
        -0x4000_0000_0000_0000 <= delta * multiplier <= 0x4000_0000_0000_0000,
{
}

/// What a movement vector puts on the pointer: a move per non-zero axis, X
/// before Y, and one flush after them if there was any. A zero vector puts
/// nothing there.
pub open spec fn motion_sequence(motion: MotionVector) -> Seq<Action> {
    let x = if motion.dx != 0 {
        seq![Action::MoveX(motion.dx)]
    } else {
        Seq::<Action>::empty()
    };
    let y = if motion.dy != 0 {
        seq![Action::MoveY(motion.dy)]
    } else {
        Seq::<Action>::empty()
    };
    let flush = if motion.dx != 0 || motion.dy != 0 {
        seq![Action::Synchronize]
    } else {
        Seq::<Action>::empty()
    };
    x + y + flush
}

/// The pointer actions of one tick for the held keys.
pub fn move_mouse(state: ControlState, config: &Config) -> (actions: Vec<Action>)
    ensures
        actions@ == motion_sequence(motion_vector(state, config@)),
{
    let motion = compute(state, config);
    let mut actions: Vec<Action> = Vec::new();
    if motion.dx != 0 {
        actions.push(Action::MoveX(motion.dx));
    }
    if motion.dy != 0 {
        actions.push(Action::MoveY(motion.dy));
    }
    if motion.dx != 0 || motion.dy != 0 {
        actions.push(Action::Synchronize);
    }
    actions
}

/// Every combination of direction keys moves by the signed sum of the held
/// directions times the base speed, scaled by the multiplier exactly when the
/// modifier is held.
pub proof fn lemma_motion_is_signed_sum(state: ControlState, config: ConfigView)
    ensures
        motion_dx(state, config) == axis_sign(state.right, state.left) * config.base_speed * (
        if state.modifier {
            config.shift_multiplier
        } else {
            1
        }),
        motion_dy(state, config) == axis_sign(state.down, state.up) * config.base_speed * (
        if state.modifier {
            config.shift_multiplier
        } else {
            1
        }),
{
    assert(forall|a: int| #[trigger] (a * 1) == a) by (nonlinear_arith);
}

/// With the modifier held each axis moves by the multiplier times what it
/// moves without it.
pub proof fn lemma_modifier_multiplies(state: ControlState, config: ConfigView)
    ensures
        motion_dx(ControlState { modifier: true, ..state }, config) == config.shift_multiplier
            * motion_dx(ControlState { modifier: false, ..state }, config),
        motion_dy(ControlState { modifier: true, ..state }, config) == config.shift_multiplier
            * motion_dy(ControlState { modifier: false, ..state }, config),
{
    assert(forall|a: int, b: int| #[trigger] (a * b) == b * a) by (nonlinear_arith);
}

/// Without the modifier the multiplier has no effect.
pub proof fn lemma_multiplier_needs_modifier(
    state: ControlState,
    config: ConfigView,
    other_multiplier: int,
)
    requires
        !state.modifier,
    ensures
        motion_dx(state, config) == motion_dx(
            state,
            ConfigView { shift_multiplier: other_multiplier, ..config },
        ),
        motion_dy(state, config) == motion_dy(
            state,
            ConfigView { shift_multiplier: other_multiplier, ..config },
        ),
{
}

/// Opposite keys held together cancel: that axis does not move, with or
/// without the modifier.
pub proof fn lemma_opposite_keys_cancel(state: ControlState, config: ConfigView)
    ensures
        state.left && state.right ==> motion_dx(state, config) == 0,
        state.up && state.down ==> motion_dy(state, config) == 0,
{
    assert(forall|a: int| #[trigger] (0 * a) == 0) by (nonlinear_arith);
}

/// A vector that moves neither axis puts nothing on the pointer: no move and
/// no flush. So a tick in which nothing is held, or in which what is held
/// cancels on both axes, is silent.
pub proof fn lemma_zero_motion_is_silent(state: ControlState, config: ConfigView)
    requires
        motion_dx(state, config) == 0,
        motion_dy(state, config) == 0,
    ensures
        motion_sequence(motion_vector(state, config)) == Seq::<Action>::empty(),
{
}

} // verus!
