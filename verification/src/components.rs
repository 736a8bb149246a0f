//! The data that an entity is made of.

use vstd::prelude::*;

verus! {

/// Where an entity is, in nanounits. `z` only orders what is drawn over what.
#[derive(Clone, Copy, Debug, PartialEq, Eq, Structural)]
pub struct Transform {
    pub x: i64,
    pub y: i64,
    pub z: i64,
}

/// How fast something moves along each axis, in nanounits per microsecond.
#[derive(Clone, Copy, Debug, PartialEq, Eq, Structural)]
pub struct Velocity {
    pub x: i64,
    pub y: i64,
    pub z: i64,
}

/// Marks the entity that the player steers.
#[derive(Clone, Copy, Debug, PartialEq, Eq, Structural)]
pub struct Paddle {
    /// Horizontal speed while a key is held, in nanounits per microsecond.
    pub speed: i64,
}

/// Marks the entity that flies on its own.
#[derive(Clone, Copy, Debug, PartialEq, Eq, Structural)]
pub struct Ball {
    pub velocity: Velocity,
}

/// What an entity is to the ball when the two touch.
#[derive(Clone, Copy, Debug, PartialEq, Eq, Structural)]
pub enum Collider {
    /// A wall: the ball bounces off.
    Solid,
    /// A target: touching it scores.
    Scorable,
    /// The paddle: the ball bounces off.
    Paddle,
}

/// Which of the two steering keys are held during one update.
#[derive(Clone, Copy, Debug, PartialEq, Eq, Structural)]
pub struct InputSnapshot {
    pub left: bool,
    pub right: bool,
}

/// Everything that one entity carries. The transform is always there; each
/// of the other components may be missing.
#[derive(Clone, Copy, Debug, PartialEq, Eq)]
pub struct Bundle {
    pub transform: Transform,
    pub paddle: Option<Paddle>,
    pub ball: Option<Ball>,
    pub collider: Option<Collider>,
}

/// A choice among the components that may be missing. It selects the bundles
/// that carry every component it names.
#[derive(Clone, Copy, Debug, PartialEq, Eq, Structural)]
pub struct ComponentSet {
    pub paddle: bool,
    pub ball: bool,
    pub collider: bool,
}

impl ComponentSet {
    /// The set that names the paddle component alone.
    pub open spec fn paddle_only_spec() -> ComponentSet {
        ComponentSet { paddle: true, ball: false, collider: false }
    }

    /// The set that names the ball component alone.
    pub open spec fn ball_only_spec() -> ComponentSet {
        ComponentSet { paddle: false, ball: true, collider: false }
    }

    /// The set that names the paddle component alone.
    #[verifier::when_used_as_spec(paddle_only_spec)]
    pub fn paddle_only() -> (set: ComponentSet)
        ensures
            set == Self::paddle_only_spec(),
    {
        ComponentSet { paddle: true, ball: false, collider: false }
    }

    /// The set that names the ball component alone.
    #[verifier::when_used_as_spec(ball_only_spec)]
    pub fn ball_only() -> (set: ComponentSet)
        ensures
            set == Self::ball_only_spec(),
    {
        ComponentSet { paddle: false, ball: true, collider: false }
    }
}

impl Bundle {
    /// The bundle carries every component that `set` names.
    pub open spec fn carries(&self, set: ComponentSet) -> bool {
        &&& set.paddle ==> self.paddle is Some
        &&& set.ball ==> self.ball is Some
        &&& set.collider ==> self.collider is Some
    }

    /// Tells whether the bundle carries every component that `set` names.
    pub fn has(&self, set: ComponentSet) -> (r: bool)
        ensures
            r == self.carries(set),
    {
        let paddle: bool = !set.paddle || self.paddle.is_some();
        let ball: bool = !set.ball || self.ball.is_some();
        let collider: bool = !set.collider || self.collider.is_some();
        paddle && ball && collider
    }
}

} // verus!
