//! The order of one update: paddle control runs first, ball motion second.

use vstd::prelude::*;
use crate::ball::{
    ball_motion_fits, ball_motion_step, ball_motion_system, try_ball_motion_system,
};
use crate::components::{Bundle, InputSnapshot};
use crate::paddle::{paddle_control_step, paddle_control_system};
use crate::store::EntityStore;

verus! {

/// The bundles after one whole update.
pub open spec fn tick_step(s: Seq<Bundle>, delta: u64, input: InputSnapshot) -> Seq<Bundle> {
    ball_motion_step(paddle_control_step(s, delta, input), delta)
}

/// One whole update of the store: paddle control, then ball motion on what
/// paddle control left.
pub fn tick(store: &mut EntityStore, delta: u64, input: InputSnapshot)
    requires
        ball_motion_fits(paddle_control_step(old(store)@, delta, input), delta),
    ensures
        final(store)@ == tick_step(old(store)@, delta, input),
{
    paddle_control_system(store, delta, input);
    ball_motion_system(store, delta);
}

/// One whole update of the store, for callers who cannot tell beforehand
/// whether the ball's new position can be stored. Paddle control runs in any
/// case. Ball motion runs where its result can be stored; the answer tells
/// whether it did.
pub fn try_tick(store: &mut EntityStore, delta: u64, input: InputSnapshot) -> (ball_ran: bool)
    ensures
        ball_ran == ball_motion_fits(paddle_control_step(old(store)@, delta, input), delta),
        ball_ran ==> final(store)@ == tick_step(old(store)@, delta, input),
        !ball_ran ==> final(store)@ == paddle_control_step(old(store)@, delta, input),
{
    paddle_control_system(store, delta, input);
    try_ball_motion_system(store, delta)
}

} // verus!
