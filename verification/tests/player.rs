use goblins::entity::player::Player;
use goblins::entity::Direction;
use goblins::screen::game::{
    update_player_frame, Input, INPUT_ATTACK, INPUT_DOWN, INPUT_LEFT, INPUT_UP,
};
use goblins::world::space::GamePos;

#[test]
fn no_input_clears_the_selection_and_integrates() {
    let mut p = Player::new();
    assert!(p.set_anim("move").is_ok());
    assert!(update_player_frame(&mut p, Input { bits: 0 }, 100).is_ok());
    assert!(p.anim.selected.is_none());
    // the start position is past the ground plane, so one tick grounds it
    assert_eq!(p.pos.y, 0);
}

#[test]
fn held_left_accelerates_and_selects_movement() {
    let mut p = Player::new();
    assert!(update_player_frame(&mut p, Input { bits: INPUT_LEFT }, 0).is_ok());
    // accelerate adds -100, then drag keeps nine tenths
    assert_eq!(p.velocity.x, -90);
    // the key was chosen before the tick, while still facing right:
    // frames are attack right, attack left, move left, move right
    assert_eq!(p.anim.selected, Some(3));
    assert_eq!(p.direction, Direction::Left);
    // the next frame selects by the new facing and restarts
    assert!(update_player_frame(&mut p, Input { bits: INPUT_LEFT }, 0).is_ok());
    assert_eq!(p.anim.selected, Some(2));
}

#[test]
fn attack_input_intercepts() {
    let mut p = Player::new();
    assert!(update_player_frame(&mut p, Input { bits: INPUT_ATTACK }, 0).is_ok());
    assert_eq!(p.anim.intercepted, Some(0));
}

#[test]
fn jump_needs_the_ground() {
    let mut p = Player::new();
    // airborne (below ground at the start position): up does not jump
    assert!(update_player_frame(&mut p, Input { bits: INPUT_UP }, 0).is_ok());
    assert_eq!(p.pos.y, 0);
    // grounded now: up sets the vertical velocity outright
    assert!(update_player_frame(&mut p, Input { bits: INPUT_UP }, 100).is_ok());
    // -23000 set, then gravity and drag: (-23000 + 200) * 900 / 1000
    assert_eq!(p.velocity.y, -20_520);
    assert!(p.pos.y < 0);
}

#[test]
fn dive_sets_the_vertical_velocity() {
    let mut p = Player::new();
    assert!(update_player_frame(&mut p, Input { bits: INPUT_DOWN }, 0).is_ok());
    // +23000 set, then gravity and drag, then the ground clamp zeroes it
    assert_eq!(p.pos.y, 0);
    assert_eq!(p.velocity.y, 0);
}

#[test]
fn moove_offsets_and_turns() {
    let mut p = Player::new();
    let before = p.get_pos();
    p.moove(GamePos { x: -1_000, y: 0 });
    assert_eq!(p.get_pos(), GamePos { x: before.x - 1_000, y: before.y });
    assert_eq!(p.direction, Direction::Left);
    p.moove(GamePos { x: 0, y: 5 });
    assert_eq!(p.direction, Direction::Left);
    p.moove(GamePos { x: 2, y: 0 });
    assert_eq!(p.direction, Direction::Right);
}

#[test]
fn player_unknown_mode_is_rejected() {
    let mut p = Player::new();
    assert!(p.set_anim("idle").is_err());
    assert!(p.intercept_anim("fly").is_err());
    assert!(p.set_anim("attack").is_ok());
}

#[test]
fn fresh_player_carries_the_standard_atlas_table() {
    let p = Player::new();
    let f = &p.anim.frames;
    assert_eq!(f.len(), 4);
    let expect: Vec<(&str, bool, Vec<(u16, u16)>)> = vec![
        ("attack right", false, vec![(0, 1), (1, 1), (2, 1), (3, 1), (4, 1)]),
        ("attack left", false, vec![(0, 2), (1, 2), (2, 2), (3, 2), (4, 2)]),
        ("move left", true, vec![(3, 0), (4, 0)]),
        ("move right", true, vec![(1, 0), (2, 0)]),
    ];
    for (entry, (name, looping, cells)) in f.iter().zip(expect.iter()) {
        assert_eq!(entry.name.as_str(), *name);
        assert_eq!(entry.looping, *looping);
        assert_eq!(&entry.cells, cells);
    }
}
