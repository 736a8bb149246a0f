//! Paddle control: the held keys steer the one paddle along `x`, and the play
//! field's edges stop it.

use vstd::prelude::*;
use crate::components::{Bundle, ComponentSet, InputSnapshot, Transform};
use crate::store::{
    is_only_match, lemma_no_match_no_sole_match, lemma_sole_match_is_only_match,
    lemma_two_matches_no_sole_match, sole_match, EntityStore,
};
use crate::units::FIELD_HALF_WIDTH;

verus! {

/// The way the held keys steer: 1 to the right, -1 to the left, and 0 where
/// neither key or both keys are held.
pub open spec fn direction(input: InputSnapshot) -> int {
    (if input.right { 1int } else { 0int }) - (if input.left { 1int } else { 0int })
}

/// The point of the play field that is nearest to `x`.
pub open spec fn clamp_to_field(x: int) -> int {
    if x < -FIELD_HALF_WIDTH {
        -FIELD_HALF_WIDTH
    } else if x > FIELD_HALF_WIDTH {
        FIELD_HALF_WIDTH as int
    } else {
        x
    }
}

/// Where a paddle at `x` stands after `delta` microseconds: it first travels
/// at `speed` the way the keys steer, and is then brought back into the field.
pub open spec fn paddle_x_after(x: int, speed: int, delta: int, input: InputSnapshot) -> int {
    clamp_to_field(x + delta * direction(input) * speed)
}

/// The bundle `b` with its paddle moved for `delta` microseconds. Only `x`
/// can differ, and its new value lies in the field, so that it can be stored.
pub open spec fn steered(b: Bundle, delta: u64, input: InputSnapshot) -> Bundle {
    Bundle {
        transform: Transform {
            x: paddle_x_after(
                b.transform.x as int,
                b.paddle.unwrap().speed as int,
                delta as int,
                input,
            ) as i64,
            ..b.transform
        },
        ..b
    }
}

/// The bundles after one run of paddle control. Where exactly one bundle
/// carries a paddle, that bundle is steered; otherwise nothing changes.
pub open spec fn paddle_control_step(
    s: Seq<Bundle>,
    delta: u64,
    input: InputSnapshot,
) -> Seq<Bundle> {
    match sole_match(s, ComponentSet::paddle_only()) {
        Some(i) => s.update(i, steered(s[i], delta, input)),
        None => s,
    }
}

/// Computes `direction`.
pub fn direction_of(input: InputSnapshot) -> (d: i8)
    ensures
        d == direction(input),
{
    let right: i8 = if input.right { 1 } else { 0 };
    let left: i8 = if input.left { 1 } else { 0 };
    right - left
}

/// Computes `paddle_x_after`. No input overflows: the travel is worked out
/// in 128 bits, and the result lies in the field.
pub fn move_paddle(x: i64, speed: i64, delta: u64, input: InputSnapshot) -> (r: i64)
    ensures
        r == paddle_x_after(x as int, speed as int, delta as int, input),
        -FIELD_HALF_WIDTH <= r <= FIELD_HALF_WIDTH,
{
    let d: i8 = direction_of(input);
    let wide_delta: i128 = delta as i128;
    let wide_speed: i128 = speed as i128;
    assert(-0x7fff_ffff_ffff_ffff_8000_0000_0000_0000 <= wide_delta * wide_speed
        <= 0x7fff_ffff_ffff_ffff_8000_0000_0000_0000) by (nonlinear_arith)
        requires
            0 <= wide_delta <= 0xffff_ffff_ffff_ffff,
            -0x8000_0000_0000_0000 <= wide_speed <= 0x7fff_ffff_ffff_ffff,
    ;
    let travel: i128 = wide_delta * wide_speed;
    let target: i128 = if d == 0 {
        x as i128
    } else if d == 1 {
        x as i128 + travel
    } else {
        assert((delta * (-1int)) * speed == -(delta * speed)) by (nonlinear_arith);
        x as i128 - travel
    };
    assert(target == x + delta * direction(input) * speed) by {
        if d == 0 {
            assert(delta * 0int * speed == 0) by (nonlinear_arith);
        } else if d == 1 {
            assert(delta * 1int * speed == delta * speed) by (nonlinear_arith);
        }
    }
    if target < -(FIELD_HALF_WIDTH as i128) {
        -FIELD_HALF_WIDTH
    } else if target > FIELD_HALF_WIDTH as i128 {
        FIELD_HALF_WIDTH
    } else {
        target as i64
    }
}

/// One run of paddle control. Where exactly one entity carries a paddle, its
/// `x` becomes `paddle_x_after`; its `y` and `z`, and every other entity, stay
/// as they were. Where no entity or more than one carries a paddle, the store
/// is left as it was.
pub fn paddle_control_system(store: &mut EntityStore, delta: u64, input: InputSnapshot)
    ensures
        final(store)@ == paddle_control_step(old(store)@, delta, input),
        forall|i: int|
            is_only_match(old(store)@, ComponentSet::paddle_only(), i) ==> -FIELD_HALF_WIDTH
                <= final(store)@[i].transform.x <= FIELD_HALF_WIDTH,
{
    if let Some(entity) = store.single(ComponentSet::paddle_only()) {
        let bundle = store.get(entity).unwrap();
        let paddle = bundle.paddle.unwrap();
        let x: i64 = move_paddle(bundle.transform.x, paddle.speed, delta, input);
        store.set_transform(entity, Transform { x, ..bundle.transform });
    }
}

/// Bringing a point into the play field twice is bringing it there once, and
/// a point of the field stays where it is.
pub proof fn clamp_is_idempotent(x: int)
    ensures
        clamp_to_field(clamp_to_field(x)) == clamp_to_field(x),
        -FIELD_HALF_WIDTH <= x <= FIELD_HALF_WIDTH ==> clamp_to_field(x) == x,
{
}

/// However long the update and whichever keys are held, the paddle ends up
/// inside the play field.
pub proof fn paddle_x_stays_in_field(x: int, speed: int, delta: int, input: InputSnapshot)
    ensures
        -FIELD_HALF_WIDTH <= paddle_x_after(x, speed, delta, input) <= FIELD_HALF_WIDTH,
{
}

/// After paddle control has run on a store with exactly one paddle, that
/// paddle stands inside the play field.
pub proof fn paddle_control_keeps_paddle_in_field(
    s: Seq<Bundle>,
    delta: u64,
    input: InputSnapshot,
    i: int,
)
    requires
        is_only_match(s, ComponentSet::paddle_only(), i),
    ensures
        -FIELD_HALF_WIDTH <= paddle_control_step(s, delta, input)[i].transform.x
            <= FIELD_HALF_WIDTH,
{
    lemma_sole_match_is_only_match(s, ComponentSet::paddle_only(), i);
}

/// With neither key held, or with both, a paddle inside the play field stays
/// where it is. (One outside the field is brought to the nearer edge.)
pub proof fn idle_paddle_keeps_x(x: int, speed: int, delta: int, input: InputSnapshot)
    requires
        input.left == input.right,
        -FIELD_HALF_WIDTH <= x <= FIELD_HALF_WIDTH,
    ensures
        paddle_x_after(x, speed, delta, input) == x,
{
    assert(delta * 0int * speed == 0) by (nonlinear_arith);
}

/// With neither key held, or with both, paddle control changes nothing in a
/// store whose paddle stands inside the play field.
pub proof fn idle_paddle_control_changes_nothing(s: Seq<Bundle>, delta: u64, input: InputSnapshot)
    requires
        input.left == input.right,
        forall|i: int|
            is_only_match(s, ComponentSet::paddle_only(), i) ==> -FIELD_HALF_WIDTH
                <= s[i].transform.x <= FIELD_HALF_WIDTH,
    ensures
        paddle_control_step(s, delta, input) == s,
{
    match sole_match(s, ComponentSet::paddle_only()) {
        Some(i) => {
            assert(is_only_match(s, ComponentSet::paddle_only(), i));
            idle_paddle_keeps_x(
                s[i].transform.x as int,
                s[i].paddle.unwrap().speed as int,
                delta as int,
                input,
            );
            assert(steered(s[i], delta, input) == s[i]);
            assert(s.update(i, s[i]) =~= s);
        },
        None => {},
    }
}

/// Paddle control moves nothing but `x`: every entity keeps its `y`, its `z`
/// and its components, and no entity comes or goes.
pub proof fn paddle_control_moves_only_x(s: Seq<Bundle>, delta: u64, input: InputSnapshot)
    ensures
        paddle_control_step(s, delta, input).len() == s.len(),
        forall|j: int|
            0 <= j < s.len() ==> {
                let after = #[trigger] paddle_control_step(s, delta, input)[j];
                &&& after.transform.y == s[j].transform.y
                &&& after.transform.z == s[j].transform.z
                &&& after.paddle == s[j].paddle
                &&& after.ball == s[j].ball
                &&& after.collider == s[j].collider
            },
        forall|j: int|
            0 <= j < s.len() && !is_only_match(s, ComponentSet::paddle_only(), j)
                ==> #[trigger] paddle_control_step(s, delta, input)[j] == s[j],
{
}

/// Paddle control changes nothing in a store without a paddle.
pub proof fn paddle_control_without_paddle(s: Seq<Bundle>, delta: u64, input: InputSnapshot)
    requires
        forall|i: int| 0 <= i < s.len() ==> (#[trigger] s[i]).paddle is None,
    ensures
        paddle_control_step(s, delta, input) == s,
{
    lemma_no_match_no_sole_match(s, ComponentSet::paddle_only());
}

/// Paddle control changes nothing in a store with two paddles or more.
pub proof fn paddle_control_with_several_paddles(
    s: Seq<Bundle>,
    delta: u64,
    input: InputSnapshot,
    i: int,
    j: int,
)
    requires
        0 <= i < s.len(),
        0 <= j < s.len(),
        i != j,
        s[i].paddle is Some,
        s[j].paddle is Some,
    ensures
        paddle_control_step(s, delta, input) == s,
{
    lemma_two_matches_no_sole_match(s, ComponentSet::paddle_only(), i, j);
}

} // verus!
