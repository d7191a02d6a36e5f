use goblins::entity::{accelerate_vel, integrate, Direction};
use goblins::world::space::{add_clamped, mul_milli, GamePos, POS_LIMIT};

#[test]
fn gravity_pulls_and_drag_damps() {
    // at rest in the air: only gravity, then drag
    let (pos, vel, _) = integrate(
        GamePos { x: 0, y: -10_000 },
        GamePos { x: 0, y: 0 },
        Direction::Right,
    );
    // (0 + 200) * 900 / 1000 = 180
    assert_eq!(vel.y, 180);
    assert_eq!(pos.y, -9_820);
}

#[test]
fn horizontal_drag_truncates_toward_zero() {
    let (pos, vel, _) = integrate(
        GamePos { x: 0, y: -10_000 },
        GamePos { x: 1000, y: 0 },
        Direction::Left,
    );
    assert_eq!(vel.x, 900);
    assert_eq!(pos.x, 900);
    let (_, vel2, _) = integrate(
        GamePos { x: 0, y: -10_000 },
        GamePos { x: -5, y: 0 },
        Direction::Left,
    );
    // -(5 * 900 / 1000) = -4, not -5
    assert_eq!(vel2.x, -4);
}

#[test]
fn ground_clamp_stops_at_ground_exactly() {
    // the unclamped update would land past the ground plane
    let (pos, vel, _) = integrate(
        GamePos { x: 0, y: -100 },
        GamePos { x: 0, y: 2000 },
        Direction::Right,
    );
    // (2000 + 200) * 900 / 1000 = 1980; -100 + 1980 = 1880 > 0
    assert_eq!(pos.y, 0);
    assert_eq!(vel.y, 0);
}

#[test]
fn ground_clamp_holds_for_any_velocity() {
    let velocities = vec![-40_000i64, -23_000, -1, 0, 1, 180, 23_000, 40_000];
    for vy in velocities {
        let (pos, _, _) = integrate(
            GamePos { x: 0, y: 0 },
            GamePos { x: 0, y: vy },
            Direction::Right,
        );
        assert!(pos.y <= 0);
    }
}

#[test]
fn zero_horizontal_velocity_keeps_facing() {
    for dir in [Direction::Left, Direction::Right] {
        let (_, _, after) = integrate(
            GamePos { x: 5_000, y: -100 },
            GamePos { x: 0, y: 500 },
            dir,
        );
        assert_eq!(after, dir);
    }
}

#[test]
fn facing_follows_velocity_sign() {
    let (_, _, right) = integrate(
        GamePos { x: 0, y: -10_000 },
        GamePos { x: 1000, y: 0 },
        Direction::Left,
    );
    assert_eq!(right, Direction::Right);
    let (_, _, left) = integrate(
        GamePos { x: 0, y: -10_000 },
        GamePos { x: -1000, y: 0 },
        Direction::Right,
    );
    assert_eq!(left, Direction::Left);
    // a tiny velocity drags to zero and keeps the facing
    let (_, _, kept) = integrate(
        GamePos { x: 0, y: -10_000 },
        GamePos { x: 1, y: 0 },
        Direction::Left,
    );
    assert_eq!(kept, Direction::Left);
}

#[test]
fn accelerate_scales_by_a_tenth() {
    let v = accelerate_vel(GamePos { x: 0, y: 0 }, GamePos { x: 1000, y: 0 });
    assert_eq!(v, GamePos { x: 100, y: 0 });
    let v2 = accelerate_vel(GamePos { x: 100, y: -50 }, GamePos { x: -1000, y: 23_000 });
    assert_eq!(v2, GamePos { x: 0, y: 2_250 });
}

#[test]
fn gamepos_arithmetic_is_componentwise() {
    let a = GamePos { x: 3, y: -4 };
    let b = GamePos { x: 10, y: 20 };
    assert_eq!(a.add(b), GamePos { x: 13, y: 16 });
    assert_eq!(a.sub(b), GamePos { x: -7, y: -24 });
    assert_eq!(GamePos { x: -5, y: 5 }.mul(900), GamePos { x: -4, y: 4 });
}

#[test]
fn scalar_helpers_match_their_contracts() {
    assert_eq!(mul_milli(1000, 900), 900);
    assert_eq!(mul_milli(-1000, 900), -900);
    assert_eq!(mul_milli(999, 500), 499);
    assert_eq!(mul_milli(-999, 500), -499);
    assert_eq!(add_clamped(5, 7, POS_LIMIT), 12);
    assert_eq!(add_clamped(POS_LIMIT, POS_LIMIT, POS_LIMIT), POS_LIMIT);
    assert_eq!(add_clamped(-POS_LIMIT, -POS_LIMIT, POS_LIMIT), -POS_LIMIT);
}
