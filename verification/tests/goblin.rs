use goblins::entity::goblin::Goblin;
use goblins::entity::Direction;
use goblins::world::space::GamePos;

#[test]
fn far_goblin_accelerates_toward_player() {
    // world x = 10 versus player at x = 3: delta 7 is past the attack
    // distance of 5, so the goblin accelerates left
    let mut g = Goblin::new();
    g.pos = GamePos { x: 10_000, y: 0 };
    g.seek_player(GamePos { x: 3_000, y: 0 });
    assert_eq!(g.velocity.x, -100);
    assert!(!g.attacking);

    let mut g2 = Goblin::new();
    g2.pos = GamePos { x: 3_000, y: 0 };
    g2.seek_player(GamePos { x: 10_000, y: 0 });
    assert_eq!(g2.velocity.x, 100);
    assert!(!g2.attacking);
}

#[test]
fn near_goblin_halts_and_attacks() {
    // world x = 6 versus player at x = 3: delta 3 is within the attack
    // distance of 5, so the goblin zeroes its horizontal velocity and
    // raises its attacking flag
    let mut g = Goblin::new();
    g.pos = GamePos { x: 6_000, y: 0 };
    g.velocity = GamePos { x: 77, y: 5 };
    g.seek_player(GamePos { x: 3_000, y: 0 });
    assert_eq!(g.velocity.x, 0);
    assert_eq!(g.velocity.y, 5);
    assert!(g.attacking);
}

#[test]
fn attack_distance_uses_straight_line_distance() {
    // horizontally inside the band, but far away vertically
    let mut g = Goblin::new();
    g.pos = GamePos { x: 3_000, y: -20_000 };
    g.velocity = GamePos { x: 77, y: 0 };
    g.seek_player(GamePos { x: 0, y: 0 });
    assert!(!g.attacking);
    assert_eq!(g.velocity.x, 77);
}

#[test]
fn boundary_distance_neither_approaches_nor_attacks() {
    let mut g = Goblin::new();
    g.pos = GamePos { x: 8_000, y: 0 };
    g.velocity = GamePos { x: 42, y: 0 };
    g.seek_player(GamePos { x: 3_000, y: 0 });
    assert_eq!(g.velocity.x, 42);
    assert!(!g.attacking);
}

#[test]
fn idle_goblin_selects_idle_animation() {
    let mut g = Goblin::new();
    g.pos = GamePos { x: 0, y: -10_000 };
    let r = g.update(0);
    assert!(r.is_ok());
    // frames: attack right, attack left, move right, move left,
    // idle right, idle left
    assert_eq!(g.anim.selected, Some(4));
    assert!(g.anim.intercepted.is_none());
}

#[test]
fn moving_goblin_selects_movement_animation() {
    let mut g = Goblin::new();
    g.pos = GamePos { x: 0, y: -10_000 };
    g.velocity = GamePos { x: -1000, y: 0 };
    let r = g.update(0);
    assert!(r.is_ok());
    assert_eq!(g.direction, Direction::Left);
    assert_eq!(g.anim.selected, Some(3));
}

#[test]
fn attacking_goblin_intercepts_until_the_run_finishes() {
    let mut g = Goblin::new();
    g.pos = GamePos { x: 0, y: -10_000 };
    g.attacking = true;
    assert!(g.update(0).is_ok());
    // attack right is the first sequence, played as an intercept
    assert_eq!(g.anim.intercepted, Some(0));
    // the attack run holds 4 cells; the 4th boundary advance finishes it
    assert!(g.update(100).is_ok());
    assert!(g.attacking);
    assert!(g.update(200).is_ok());
    assert!(g.update(300).is_ok());
    assert!(g.attacking);
    assert!(g.update(400).is_ok());
    assert!(!g.attacking);
    assert!(g.anim.intercepted.is_none());
    // back to the idle selection
    assert_eq!(g.anim.selected, Some(4));
}

#[test]
fn goblin_unknown_mode_is_rejected() {
    let mut g = Goblin::new();
    assert!(g.set_anim("dance").is_err());
    assert!(g.intercept_anim("dance").is_err());
    assert!(g.set_anim("move").is_ok());
}

#[test]
fn moove_replaces_velocity() {
    let mut g = Goblin::new();
    g.moove(GamePos { x: 5, y: -7 });
    assert_eq!(g.velocity, GamePos { x: 5, y: -7 });
    assert_eq!(g.get_pos(), GamePos { x: 0, y: 0 });
}

#[test]
fn fresh_goblin_carries_the_standard_atlas_table() {
    let g = Goblin::new();
    let f = &g.anim.frames;
    assert_eq!(f.len(), 6);
    let expect: Vec<(&str, bool, Vec<(u16, u16)>)> = vec![
        ("attack right", false, vec![(0, 2), (1, 2), (2, 2), (3, 2)]),
        ("attack left", false, vec![(0, 3), (1, 3), (2, 3), (3, 3)]),
        ("move right", true, vec![(0, 0), (1, 0), (2, 0), (3, 0)]),
        ("move left", true, vec![(0, 1), (1, 1), (2, 1), (3, 1)]),
        ("idle right", true, vec![(0, 0)]),
        ("idle left", true, vec![(0, 1)]),
    ];
    for (entry, (name, looping, cells)) in f.iter().zip(expect.iter()) {
        assert_eq!(entry.name.as_str(), *name);
        assert_eq!(entry.looping, *looping);
        assert_eq!(&entry.cells, cells);
    }
}
