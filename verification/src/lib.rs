//! The simulation core of a paddle-and-ball game, in fixed-point arithmetic.
//!
//! Every quantity is a whole number: positions count nanounits, time counts
//! microseconds, and speeds count nanounits per microsecond. Nothing is
//! rounded inside the crate, so each update is an exact function of its
//! inputs.
//!
//! One update runs paddle control, then ball motion (`schedule`), on the
//! entities of a `store`. What a touch between the ball and another entity
//! does is in `scoring`.

pub mod units;
pub mod components;
pub mod store;
pub mod paddle;
pub mod ball;
pub mod scoring;
pub mod schedule;
