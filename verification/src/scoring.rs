//! What a collision does: the ball bounces off walls and off the paddle, and
//! a target that it touches scores and leaves the play. Finding out which
//! entities touch is left to the caller, who knows their extents.

use vstd::prelude::*;
use crate::components::{Ball, Bundle, Collider, ComponentSet, Velocity};
use crate::store::{sole_match, Entity, EntityStore};

verus! {

/// The axis along which the normal of a touched surface points.
#[derive(Clone, Copy, Debug, PartialEq, Eq, Structural)]
pub enum Axis {
    X,
    Y,
}

/// What collision resolution did about one touch.
#[derive(Clone, Copy, Debug, PartialEq, Eq, Structural)]
pub enum CollisionResponse {
    /// The ball was turned back along the surface's normal.
    Bounced,
    /// A point was scored.
    Scored,
}

/// The running score of one game.
#[derive(Clone, Copy, Debug, PartialEq, Eq, Structural)]
pub struct Scoreboard {
    pub score: u64,
}

/// What touching an entity tagged `collider` leads to.
pub open spec fn response_to(collider: Collider) -> CollisionResponse {
    match collider {
        Collider::Solid => CollisionResponse::Bounced,
        Collider::Paddle => CollisionResponse::Bounced,
        Collider::Scorable => CollisionResponse::Scored,
    }
}

/// The velocity `v` with its part along `normal` turned round.
pub open spec fn reflected(v: Velocity, normal: Axis) -> Velocity
    recommends
        reflect_fits(v, normal),
{
    match normal {
        Axis::X => Velocity { x: (-v.x) as i64, ..v },
        Axis::Y => Velocity { y: (-v.y) as i64, ..v },
    }
}

/// The part of `v` along `normal` can be turned round: it is not the one
/// speed whose opposite cannot be stored.
pub open spec fn reflect_fits(v: Velocity, normal: Axis) -> bool {
    match normal {
        Axis::X => v.x > i64::MIN,
        Axis::Y => v.y > i64::MIN,
    }
}

/// Resolving a touch of `collider` stays within what the ball and the
/// scoreboard can store.
pub open spec fn collision_fits(
    ball: Ball,
    board: Scoreboard,
    collider: Collider,
    normal: Axis,
) -> bool {
    match response_to(collider) {
        CollisionResponse::Bounced => reflect_fits(ball.velocity, normal),
        CollisionResponse::Scored => board.score < u64::MAX,
    }
}

/// The ball after a touch of `collider`: turned back by a wall or the
/// paddle, unchanged by a target.
pub open spec fn ball_after_collision(ball: Ball, collider: Collider, normal: Axis) -> Ball {
    match response_to(collider) {
        CollisionResponse::Bounced => Ball { velocity: reflected(ball.velocity, normal) },
        CollisionResponse::Scored => ball,
    }
}

/// The score after a touch of `collider`: one more for a target, unchanged
/// by a wall or the paddle.
pub open spec fn score_after_collision(score: int, collider: Collider) -> int {
    match response_to(collider) {
        CollisionResponse::Bounced => score,
        CollisionResponse::Scored => score + 1,
    }
}

impl Scoreboard {
    /// The scoreboard of a game that has just begun.
    pub fn new() -> (board: Scoreboard)
        ensures
            board.score == 0,
    {
        Scoreboard { score: 0 }
    }
}

impl Collider {
    /// Computes `response_to`.
    pub fn response(self) -> (r: CollisionResponse)
        ensures
            r == response_to(self),
    {
        match self {
            Collider::Solid => CollisionResponse::Bounced,
            Collider::Paddle => CollisionResponse::Bounced,
            Collider::Scorable => CollisionResponse::Scored,
        }
    }
}

impl Velocity {
    /// Tells whether the part of the velocity along `normal` can be turned
    /// round.
    pub fn can_reflect(self, normal: Axis) -> (r: bool)
        ensures
            r == reflect_fits(self, normal),
    {
        match normal {
            Axis::X => self.x > i64::MIN,
            Axis::Y => self.y > i64::MIN,
        }
    }

    /// Computes `reflected`.
    pub fn reflect(self, normal: Axis) -> (r: Velocity)
        requires
            reflect_fits(self, normal),
        ensures
            r == reflected(self, normal),
            normal is X ==> r.x == -self.x && r.y == self.y && r.z == self.z,
            normal is Y ==> r.y == -self.y && r.x == self.x && r.z == self.z,
    {
        match normal {
            Axis::X => Velocity { x: -self.x, ..self },
            Axis::Y => Velocity { y: -self.y, ..self },
        }
    }
}

/// Tells whether `resolve_collision` can be called: computes
/// `collision_fits`.
pub fn can_resolve_collision(
    ball: Ball,
    board: Scoreboard,
    collider: Collider,
    normal: Axis,
) -> (r: bool)
    ensures
        r == collision_fits(ball, board, collider, normal),
{
    match collider.response() {
        CollisionResponse::Bounced => ball.velocity.can_reflect(normal),
        CollisionResponse::Scored => board.score < u64::MAX,
    }
}

/// Resolves one touch between the ball and an entity tagged `collider`,
/// whose surface faces along `normal`. A wall or the paddle turns the ball
/// back and leaves the score; a target scores one point and leaves the ball.
pub fn resolve_collision(
    ball: &mut Ball,
    board: &mut Scoreboard,
    collider: Collider,
    normal: Axis,
) -> (r: CollisionResponse)
    requires
        collision_fits(*old(ball), *old(board), collider, normal),
    ensures
        r == response_to(collider),
        *final(ball) == ball_after_collision(*old(ball), collider, normal),
        final(board).score == score_after_collision(old(board).score as int, collider),
{
    let response = collider.response();
    match response {
        CollisionResponse::Bounced => {
            ball.velocity = ball.velocity.reflect(normal);
        },
        CollisionResponse::Scored => {
            board.score = board.score + 1;
        },
    }
    response
}

/// What resolving a touch of the entity at `touched` does in a store: the
/// response to its collider tag, where exactly one bundle carries a ball and
/// the touched entity is tagged; nothing otherwise.
pub open spec fn touch_response(s: Seq<Bundle>, touched: int) -> Option<CollisionResponse> {
    if sole_match(s, ComponentSet::ball_only()) is Some && 0 <= touched < s.len()
        && s[touched].collider is Some {
        Some(response_to(s[touched].collider.unwrap()))
    } else {
        None
    }
}

/// The bundles after a touch of the entity at `touched`. A wall or the
/// paddle turns the one ball back; a target loses its collider tag, and so
/// can be touched no more.
pub open spec fn collision_step(s: Seq<Bundle>, touched: int, normal: Axis) -> Seq<Bundle> {
    match touch_response(s, touched) {
        Some(CollisionResponse::Bounced) => {
            let b = sole_match(s, ComponentSet::ball_only()).unwrap();
            let turned = ball_after_collision(
                s[b].ball.unwrap(),
                s[touched].collider.unwrap(),
                normal,
            );
            s.update(b, Bundle { ball: Some(turned), ..s[b] })
        },
        Some(CollisionResponse::Scored) => s.update(
            touched,
            Bundle { collider: None, ..s[touched] },
        ),
        None => s,
    }
}

/// Resolving a touch of the entity at `touched` stays within what the ball
/// and the scoreboard can store. This holds wherever nothing is resolved.
pub open spec fn collision_step_fits(
    s: Seq<Bundle>,
    board: Scoreboard,
    touched: int,
    normal: Axis,
) -> bool {
    touch_response(s, touched) is Some ==> collision_fits(
        s[sole_match(s, ComponentSet::ball_only()).unwrap()].ball.unwrap(),
        board,
        s[touched].collider.unwrap(),
        normal,
    )
}

/// Tells whether `collision_system` can be called: computes
/// `collision_step_fits`.
pub fn can_run_collision_system(
    store: &EntityStore,
    board: Scoreboard,
    touched: Entity,
    normal: Axis,
) -> (r: bool)
    ensures
        r == collision_step_fits(store@, board, touched.0 as int, normal),
{
    if let Some(flying) = store.single(ComponentSet::ball_only()) {
        if let Some(target) = store.get(touched) {
            if let Some(collider) = target.collider {
                let ball = store.get(flying).unwrap().ball.unwrap();
                return can_resolve_collision(ball, board, collider, normal);
            }
        }
    }
    true
}

/// One run of collision resolution, for one touch between the ball and
/// `touched`, whose surface faces along `normal`. Where exactly one entity
/// carries a ball and `touched` is tagged, the touch is resolved: a wall or
/// the paddle turns the ball back, a target scores one point and loses its
/// tag. Otherwise store and scoreboard are left as they were.
pub fn collision_system(
    store: &mut EntityStore,
    board: &mut Scoreboard,
    touched: Entity,
    normal: Axis,
) -> (r: Option<CollisionResponse>)
    requires
        collision_step_fits(old(store)@, *old(board), touched.0 as int, normal),
    ensures
        r == touch_response(old(store)@, touched.0 as int),
        final(store)@ == collision_step(old(store)@, touched.0 as int, normal),
        final(board).score == (if r == Some(CollisionResponse::Scored) {
            old(board).score + 1
        } else {
            old(board).score as int
        }),
{
    if let Some(flying) = store.single(ComponentSet::ball_only()) {
        if let Some(target) = store.get(touched) {
            if let Some(collider) = target.collider {
                let mut ball = store.get(flying).unwrap().ball.unwrap();
                let response = resolve_collision(&mut ball, board, collider, normal);
                match response {
                    CollisionResponse::Bounced => {
                        store.set_velocity(flying, ball.velocity);
                    },
                    CollisionResponse::Scored => {
                        store.remove_collider(touched);
                    },
                }
                return Some(response);
            }
        }
    }
    None
}

/// Collision resolution moves nothing: every entity keeps its transform,
/// and no entity comes or goes.
pub proof fn collision_moves_nothing(s: Seq<Bundle>, touched: int, normal: Axis)
    ensures
        collision_step(s, touched, normal).len() == s.len(),
        forall|j: int|
            0 <= j < s.len() ==> (#[trigger] collision_step(s, touched, normal)[j]).transform
                == s[j].transform,
{
}

} // verus!
