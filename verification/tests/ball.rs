use paddle_sim::ball::{
    advance, ball_motion_system, checked_advance, clamp_delta, try_ball_motion_system,
};
use paddle_sim::components::{Ball, Bundle, Collider, Paddle, Transform, Velocity};
use paddle_sim::store::{Entity, EntityStore};
use paddle_sim::units::{DELTA_CEILING, MICROS_PER_SECOND, NANOS_PER_UNIT, UNIT_PER_SECOND};

fn start() -> Transform {
    Transform { x: 0, y: -50 * NANOS_PER_UNIT, z: NANOS_PER_UNIT }
}

fn diagonal() -> Velocity {
    // 282.8 world units per second to the right and down.
    Velocity { x: 282_800, y: -282_800, z: 0 }
}

fn ball_at(transform: Transform, velocity: Velocity) -> Bundle {
    Bundle { transform, paddle: None, ball: Some(Ball { velocity }), collider: None }
}

fn brick() -> Bundle {
    Bundle {
        transform: Transform { x: 10 * NANOS_PER_UNIT, y: 200 * NANOS_PER_UNIT, z: 0 },
        paddle: None,
        ball: None,
        collider: Some(Collider::Scorable),
    }
}

#[test]
fn delta_is_cut_at_the_ceiling() {
    assert_eq!(clamp_delta(0), 0);
    assert_eq!(clamp_delta(16_667), 16_667);
    assert_eq!(clamp_delta(199_999), 199_999);
    assert_eq!(clamp_delta(200_000), 200_000);
    assert_eq!(clamp_delta(200_001), 200_000);
    assert_eq!(clamp_delta(5 * MICROS_PER_SECOND), DELTA_CEILING);
    assert_eq!(clamp_delta(u64::MAX), DELTA_CEILING);
}

#[test]
fn ball_moves_by_velocity_times_delta() {
    // A hundredth of a second at 282.8 units per second: 2.828 units.
    let moved = advance(start(), diagonal(), MICROS_PER_SECOND / 100);
    assert_eq!(moved.x - start().x, 2_828_000_000);
    assert_eq!(moved.y - start().y, -2_828_000_000);
    assert_eq!(moved.z, start().z);
    assert_eq!(
        moved,
        Transform { x: 2_828_000_000, y: -50 * NANOS_PER_UNIT - 2_828_000_000, z: NANOS_PER_UNIT }
    );
}

#[test]
fn ball_moves_along_z_like_along_the_others() {
    let rising = Velocity { x: 0, y: 0, z: 3 * UNIT_PER_SECOND };
    let moved = advance(start(), rising, 1_000);
    assert_eq!(moved, Transform { z: NANOS_PER_UNIT + 3_000_000, ..start() });
}

#[test]
fn zero_delta_moves_nothing() {
    assert_eq!(advance(start(), diagonal(), 0), start());
}

#[test]
fn five_seconds_move_the_ball_like_a_fifth_of_a_second() {
    let long = advance(start(), diagonal(), 5 * MICROS_PER_SECOND);
    let ceiling = advance(start(), diagonal(), MICROS_PER_SECOND / 5);
    assert_eq!(long, ceiling);
    assert_eq!(long.x, 282_800 * 200_000);
    assert_eq!(long.y, -50 * NANOS_PER_UNIT - 282_800 * 200_000);
    assert_eq!(advance(start(), diagonal(), u64::MAX), ceiling);
}

#[test]
fn just_below_the_ceiling_is_not_cut() {
    let moved = advance(start(), diagonal(), 199_999);
    assert_eq!(moved.x, 282_800 * 199_999);
}

#[test]
fn checked_advance_agrees_with_advance() {
    for delta in [0, 1, 10_000, 200_000, 9_999_999] {
        assert_eq!(
            checked_advance(start(), diagonal(), delta),
            Some(advance(start(), diagonal(), delta))
        );
    }
}

#[test]
fn checked_advance_refuses_what_cannot_be_stored() {
    let far = Transform { x: i64::MAX, y: 0, z: 0 };
    let right = Velocity { x: 1, y: 0, z: 0 };
    assert_eq!(checked_advance(far, right, 1), None);
    assert_eq!(checked_advance(far, right, 0), Some(far));
    let low = Transform { x: 0, y: i64::MIN, z: 0 };
    let down = Velocity { x: 0, y: -1, z: 0 };
    assert_eq!(checked_advance(low, down, 1), None);
    let deep = Transform { x: 0, y: 0, z: i64::MAX - 5 };
    let up = Velocity { x: 0, y: 0, z: 2 };
    assert_eq!(checked_advance(deep, up, 2), Some(Transform { x: 0, y: 0, z: i64::MAX - 1 }));
    assert_eq!(checked_advance(deep, up, 3), None);
    let fastest = Velocity { x: i64::MAX, y: i64::MIN, z: 0 };
    assert_eq!(checked_advance(start(), fastest, u64::MAX), None);
    assert_eq!(
        checked_advance(Transform { x: 0, y: 0, z: 0 }, fastest, 1),
        Some(Transform { x: i64::MAX, y: i64::MIN, z: 0 })
    );
}

#[test]
fn ball_motion_moves_the_one_ball() {
    let mut store = EntityStore::new();
    let target = store.spawn(brick());
    let ball = store.spawn(ball_at(start(), diagonal()));
    ball_motion_system(&mut store, MICROS_PER_SECOND / 100);
    assert_eq!(
        store.get(ball),
        Some(ball_at(
            Transform {
                x: 2_828_000_000,
                y: -50 * NANOS_PER_UNIT - 2_828_000_000,
                z: NANOS_PER_UNIT
            },
            diagonal()
        ))
    );
    assert_eq!(store.get(target), Some(brick()));
    assert_eq!(store.len(), 2);
}

#[test]
fn ball_motion_has_no_walls() {
    let mut store = EntityStore::new();
    let ball = store.spawn(ball_at(
        Transform { x: 379 * NANOS_PER_UNIT, y: 0, z: 0 },
        Velocity { x: 500 * UNIT_PER_SECOND, y: 0, z: 0 },
    ));
    ball_motion_system(&mut store, MICROS_PER_SECOND / 10);
    assert_eq!(store.get(ball).unwrap().transform.x, 429 * NANOS_PER_UNIT);
}

#[test]
fn ball_motion_in_the_store_is_cut_at_the_ceiling() {
    let mut long = EntityStore::new();
    let mut short = EntityStore::new();
    let a = long.spawn(ball_at(start(), diagonal()));
    let b = short.spawn(ball_at(start(), diagonal()));
    ball_motion_system(&mut long, 5 * MICROS_PER_SECOND);
    ball_motion_system(&mut short, MICROS_PER_SECOND / 5);
    assert_eq!(long.get(a), short.get(b));
    assert_eq!(long.get(a).unwrap().transform.x, 56_560_000_000);
}

#[test]
fn ball_motion_on_an_empty_store_does_nothing() {
    let mut store = EntityStore::new();
    ball_motion_system(&mut store, 10_000);
    assert_eq!(store.len(), 0);
    assert_eq!(store.get(Entity(0)), None);
    assert!(try_ball_motion_system(&mut store, 10_000));
    assert_eq!(store.len(), 0);
}

#[test]
fn ball_motion_without_a_ball_does_nothing() {
    let mut store = EntityStore::new();
    let target = store.spawn(brick());
    let paddle = store.spawn(Bundle {
        transform: Transform { x: 0, y: -215 * NANOS_PER_UNIT, z: 0 },
        paddle: Some(Paddle { speed: 500 * UNIT_PER_SECOND }),
        ball: None,
        collider: Some(Collider::Paddle),
    });
    let before = store.get(paddle);
    ball_motion_system(&mut store, 10_000);
    assert_eq!(store.get(target), Some(brick()));
    assert_eq!(store.get(paddle), before);
    assert_eq!(store.len(), 2);
}

#[test]
fn ball_motion_with_two_balls_does_nothing() {
    let mut store = EntityStore::new();
    let first = store.spawn(ball_at(start(), diagonal()));
    let second = store.spawn(ball_at(Transform { x: 5, y: 6, z: 7 }, Velocity { x: 1, y: 2, z: 3 }));
    ball_motion_system(&mut store, 10_000);
    assert_eq!(store.get(first), Some(ball_at(start(), diagonal())));
    assert_eq!(
        store.get(second),
        Some(ball_at(Transform { x: 5, y: 6, z: 7 }, Velocity { x: 1, y: 2, z: 3 }))
    );
    assert!(try_ball_motion_system(&mut store, 10_000));
    assert_eq!(store.get(first), Some(ball_at(start(), diagonal())));
}

#[test]
fn guarded_ball_motion_runs_where_the_result_fits() {
    let mut store = EntityStore::new();
    let ball = store.spawn(ball_at(start(), diagonal()));
    assert!(try_ball_motion_system(&mut store, MICROS_PER_SECOND / 100));
    assert_eq!(store.get(ball).unwrap().transform.x, 2_828_000_000);
}

#[test]
fn guarded_ball_motion_leaves_the_store_where_it_does_not_fit() {
    let mut store = EntityStore::new();
    let far = Transform { x: i64::MAX - 10, y: 0, z: 0 };
    let ball = store.spawn(ball_at(far, Velocity { x: 11, y: 0, z: 0 }));
    assert!(!try_ball_motion_system(&mut store, 1));
    assert_eq!(store.get(ball), Some(ball_at(far, Velocity { x: 11, y: 0, z: 0 })));
    // With two balls there is nothing to move, so nothing can fail to fit.
    store.spawn(ball_at(far, Velocity { x: 11, y: 0, z: 0 }));
    assert!(try_ball_motion_system(&mut store, 1));
}
