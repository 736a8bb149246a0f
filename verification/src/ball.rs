//! Ball motion: the one ball flies along its velocity, for at most the
//! ceiling's worth of time per update.

use vstd::prelude::*;
use crate::components::{Bundle, ComponentSet, Transform, Velocity};
use crate::store::{
    is_only_match, lemma_no_match_no_sole_match, lemma_two_matches_no_sole_match, sole_match,
    EntityStore,
};
use crate::units::DELTA_CEILING;

verus! {

/// The time that one ball update integrates over: `delta`, cut at the
/// ceiling. A stalled frame can so never carry the ball through a thin wall.
pub open spec fn effective_delta(delta: int) -> int {
    if delta < DELTA_CEILING {
        delta
    } else {
        DELTA_CEILING as int
    }
}

/// One coordinate `p` after flying at speed `v` for the effective part of
/// `delta` microseconds.
pub open spec fn coordinate_after(p: int, v: int, delta: int) -> int {
    p + v * effective_delta(delta)
}

/// `n` can be stored as a coordinate.
pub open spec fn is_coordinate(n: int) -> bool {
    i64::MIN <= n <= i64::MAX
}

/// All three coordinates of the flight from `t` can be stored.
pub open spec fn advance_fits(t: Transform, v: Velocity, delta: u64) -> bool {
    &&& is_coordinate(coordinate_after(t.x as int, v.x as int, delta as int))
    &&& is_coordinate(coordinate_after(t.y as int, v.y as int, delta as int))
    &&& is_coordinate(coordinate_after(t.z as int, v.z as int, delta as int))
}

/// The transform `t` after flying at `v`: each coordinate is its
/// `coordinate_after`, `z` like the others.
pub open spec fn advanced(t: Transform, v: Velocity, delta: u64) -> Transform
    recommends
        advance_fits(t, v, delta),
{
    Transform {
        x: coordinate_after(t.x as int, v.x as int, delta as int) as i64,
        y: coordinate_after(t.y as int, v.y as int, delta as int) as i64,
        z: coordinate_after(t.z as int, v.z as int, delta as int) as i64,
    }
}

/// The bundle `b` with its ball flown for `delta` microseconds. Only the
/// transform can differ.
pub open spec fn flown(b: Bundle, delta: u64) -> Bundle {
    Bundle { transform: advanced(b.transform, b.ball.unwrap().velocity, delta), ..b }
}

/// The bundles after one run of ball motion. Where exactly one bundle
/// carries a ball, that bundle is flown; otherwise nothing changes.
pub open spec fn ball_motion_step(s: Seq<Bundle>, delta: u64) -> Seq<Bundle> {
    match sole_match(s, ComponentSet::ball_only()) {
        Some(i) => s.update(i, flown(s[i], delta)),
        None => s,
    }
}

/// One run of ball motion on `s` stays within what coordinates can store.
/// This holds wherever ball motion has nothing to move.
pub open spec fn ball_motion_fits(s: Seq<Bundle>, delta: u64) -> bool {
    match sole_match(s, ComponentSet::ball_only()) {
        Some(i) => advance_fits(s[i].transform, s[i].ball.unwrap().velocity, delta),
        None => true,
    }
}

/// Computes `effective_delta`.
pub fn clamp_delta(delta: u64) -> (r: u64)
    ensures
        r == effective_delta(delta as int),
        r <= DELTA_CEILING,
{
    if delta < DELTA_CEILING {
        delta
    } else {
        DELTA_CEILING
    }
}

/// One coordinate after `span` microseconds at speed `v`, in 128 bits, where
/// it cannot overflow.
fn wide_coordinate(p: i64, v: i64, span: u64) -> (r: i128)
    requires
        span <= DELTA_CEILING,
    ensures
        r == p + v * span,
{
    let wide_v: i128 = v as i128;
    let wide_span: i128 = span as i128;
    assert(-0x8000_0000_0000_0000 * 200_000 <= wide_v * wide_span <= 0x8000_0000_0000_0000
        * 200_000) by (nonlinear_arith)
        requires
            -0x8000_0000_0000_0000 <= wide_v <= 0x7fff_ffff_ffff_ffff,
            0 <= wide_span <= 200_000,
    ;
    p as i128 + wide_v * wide_span
}

/// Tells whether `n` can be stored as a coordinate.
fn in_coordinate_range(n: i128) -> (r: bool)
    ensures
        r == is_coordinate(n as int),
{
    i64::MIN as i128 <= n && n <= i64::MAX as i128
}

/// The transform after the ball has flown from `t` at `v`, where all three
/// coordinates can be stored, and `None` where one cannot.
pub fn checked_advance(t: Transform, v: Velocity, delta: u64) -> (r: Option<Transform>)
    ensures
        match r {
            Some(moved) => advance_fits(t, v, delta) && moved == advanced(t, v, delta),
            None => !advance_fits(t, v, delta),
        },
{
    let span: u64 = clamp_delta(delta);
    let x: i128 = wide_coordinate(t.x, v.x, span);
    let y: i128 = wide_coordinate(t.y, v.y, span);
    let z: i128 = wide_coordinate(t.z, v.z, span);
    if in_coordinate_range(x) && in_coordinate_range(y) && in_coordinate_range(z) {
        Some(Transform { x: x as i64, y: y as i64, z: z as i64 })
    } else {
        None
    }
}

/// The transform after the ball has flown from `t` at `v` for the effective
/// part of `delta` microseconds.
pub fn advance(t: Transform, v: Velocity, delta: u64) -> (r: Transform)
    requires
        advance_fits(t, v, delta),
    ensures
        r == advanced(t, v, delta),
        r.x == coordinate_after(t.x as int, v.x as int, delta as int),
        r.y == coordinate_after(t.y as int, v.y as int, delta as int),
        r.z == coordinate_after(t.z as int, v.z as int, delta as int),
{
    let span: u64 = clamp_delta(delta);
    Transform {
        x: wide_coordinate(t.x, v.x, span) as i64,
        y: wide_coordinate(t.y, v.y, span) as i64,
        z: wide_coordinate(t.z, v.z, span) as i64,
    }
}

/// One run of ball motion. Where exactly one entity carries a ball, its
/// transform becomes `advanced`; every other entity stays as it was. Where no
/// entity or more than one carries a ball, the store is left as it was.
pub fn ball_motion_system(store: &mut EntityStore, delta: u64)
    requires
        ball_motion_fits(old(store)@, delta),
    ensures
        final(store)@ == ball_motion_step(old(store)@, delta),
{
    if let Some(entity) = store.single(ComponentSet::ball_only()) {
        let bundle = store.get(entity).unwrap();
        let ball = bundle.ball.unwrap();
        store.set_transform(entity, advance(bundle.transform, ball.velocity, delta));
    }
}

/// Runs ball motion where its result can be stored, and tells whether it
/// did. Where it cannot, the store is left as it was.
pub fn try_ball_motion_system(store: &mut EntityStore, delta: u64) -> (ran: bool)
    ensures
        ran == ball_motion_fits(old(store)@, delta),
        ran ==> final(store)@ == ball_motion_step(old(store)@, delta),
        !ran ==> final(store)@ == old(store)@,
{
    if let Some(entity) = store.single(ComponentSet::ball_only()) {
        let bundle = store.get(entity).unwrap();
        let ball = bundle.ball.unwrap();
        match checked_advance(bundle.transform, ball.velocity, delta) {
            Some(moved) => {
                store.set_transform(entity, moved);
                true
            },
            None => false,
        }
    } else {
        true
    }
}

/// An update longer than the ceiling moves the ball exactly as the ceiling
/// does.
pub proof fn ceiling_caps_advance(t: Transform, v: Velocity, delta: u64)
    requires
        delta >= DELTA_CEILING,
    ensures
        advanced(t, v, delta) == advanced(t, v, DELTA_CEILING),
        advance_fits(t, v, delta) == advance_fits(t, v, DELTA_CEILING),
{
}

/// An update longer than the ceiling changes the store exactly as the
/// ceiling does.
pub proof fn ceiling_caps_ball_motion(s: Seq<Bundle>, delta: u64)
    requires
        delta >= DELTA_CEILING,
    ensures
        ball_motion_step(s, delta) == ball_motion_step(s, DELTA_CEILING),
        ball_motion_fits(s, delta) == ball_motion_fits(s, DELTA_CEILING),
{
    match sole_match(s, ComponentSet::ball_only()) {
        Some(i) => {
            ceiling_caps_advance(s[i].transform, s[i].ball.unwrap().velocity, delta);
        },
        None => {},
    }
}

/// However long the update, no coordinate travels farther than its speed
/// carries it in the ceiling's time.
pub proof fn travel_is_bounded(p: int, v: int, delta: int)
    requires
        0 <= delta,
    ensures
        v >= 0 ==> 0 <= coordinate_after(p, v, delta) - p <= v * DELTA_CEILING,
        v <= 0 ==> v * DELTA_CEILING <= coordinate_after(p, v, delta) - p <= 0,
{
    let span = effective_delta(delta);
    assert(v >= 0 ==> 0 <= v * span <= v * 200_000) by (nonlinear_arith)
        requires
            0 <= span <= 200_000,
    ;
    assert(v <= 0 ==> v * 200_000 <= v * span <= 0) by (nonlinear_arith)
        requires
            0 <= span <= 200_000,
    ;
}

/// A coordinate along which the ball has no speed stays as it is. So the
/// ball keeps its `z` as long as its velocity has none.
pub proof fn still_coordinate_stays(p: int, delta: int)
    ensures
        coordinate_after(p, 0, delta) == p,
{
}

/// Ball motion moves nothing but the transform of the one ball: every
/// entity keeps its components, no entity comes or goes, and a ball without
/// speed along `z` keeps its `z`.
pub proof fn ball_motion_moves_only_ball(s: Seq<Bundle>, delta: u64)
    ensures
        ball_motion_step(s, delta).len() == s.len(),
        forall|j: int|
            0 <= j < s.len() ==> {
                let after = #[trigger] ball_motion_step(s, delta)[j];
                &&& after.paddle == s[j].paddle
                &&& after.ball == s[j].ball
                &&& after.collider == s[j].collider
                &&& (s[j].ball matches Some(ball) && ball.velocity.z == 0)
                    ==> after.transform.z == s[j].transform.z
            },
        forall|j: int|
            0 <= j < s.len() && !is_only_match(s, ComponentSet::ball_only(), j)
                ==> #[trigger] ball_motion_step(s, delta)[j] == s[j],
{
}

/// Ball motion changes nothing in a store without a ball, and can always run
/// there.
pub proof fn ball_motion_without_ball(s: Seq<Bundle>, delta: u64)
    requires
        forall|i: int| 0 <= i < s.len() ==> (#[trigger] s[i]).ball is None,
    ensures
        ball_motion_step(s, delta) == s,
        ball_motion_fits(s, delta),
{
    lemma_no_match_no_sole_match(s, ComponentSet::ball_only());
}

/// Ball motion changes nothing in a store with two balls or more, and can
/// always run there.
pub proof fn ball_motion_with_several_balls(s: Seq<Bundle>, delta: u64, i: int, j: int)
    requires
        0 <= i < s.len(),
        0 <= j < s.len(),
        i != j,
        s[i].ball is Some,
        s[j].ball is Some,
    ensures
        ball_motion_step(s, delta) == s,
        ball_motion_fits(s, delta),
{
    lemma_two_matches_no_sole_match(s, ComponentSet::ball_only(), i, j);
}

} // verus!
