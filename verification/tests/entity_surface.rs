use goblins::entity::goblin::Goblin;
use goblins::entity::player::Player;
use goblins::entity::tile::Tile;
use goblins::entity::{Atlas, Direction, Entity};
use goblins::screen::camera::Camera;
use goblins::world::space::GamePos;

#[test]
fn every_kind_answers_the_common_surface() {
    let cam = Camera::new(GamePos { x: 0, y: 0 }, 64_000, 48_000);
    let mut kinds = vec![
        Entity::Player(Player::new()),
        Entity::Goblin(Goblin::new()),
        Entity::Tile(Tile::new((0, 0), GamePos { x: 0, y: 0 })),
    ];
    for e in &mut kinds {
        let _ = e.get_pos();
        let _ = e.draw(&cam);
        e.accelerate(GamePos { x: 1_000, y: 0 });
        e.remove_anim();
    }
}

#[test]
fn dispatch_reaches_the_right_kind() {
    let mut e = Entity::Goblin(Goblin::new());
    // a goblin takes a move call as its new velocity
    e.moove(GamePos { x: 7, y: 8 });
    match &e {
        Entity::Goblin(g) => {
            assert_eq!(g.velocity, GamePos { x: 7, y: 8 });
            assert_eq!(g.pos, GamePos { x: 0, y: 0 });
        },
        _ => panic!("kind changed"),
    }

    let mut p = Entity::Player(Player::new());
    // a player takes it as a position offset, and turns
    p.moove(GamePos { x: -7, y: 0 });
    match &p {
        Entity::Player(inner) => {
            assert_eq!(inner.pos.x, 300_000 - 7);
            assert_eq!(inner.direction, Direction::Left);
        },
        _ => panic!("kind changed"),
    }
}

#[test]
fn animation_calls_follow_the_kind() {
    let mut t = Entity::Tile(Tile::new((1, 1), GamePos { x: 0, y: 0 }));
    assert!(t.set_anim("anything").is_ok());
    assert!(t.intercept_anim("anything").is_ok());

    let mut g = Entity::Goblin(Goblin::new());
    assert!(g.set_anim("idle").is_ok());
    assert!(g.set_anim("anything").is_err());

    let mut p = Entity::Player(Player::new());
    assert!(p.set_anim("move").is_ok());
    assert!(p.set_anim("idle").is_err());
}

#[test]
fn draw_names_the_matching_atlas() {
    let cam = Camera::new(GamePos { x: 0, y: 0 }, 64_000, 48_000);
    let e = Entity::Player(Player::new());
    assert_eq!(e.draw(&cam).atlas, Atlas::Player);
    let g = Entity::Goblin(Goblin::new());
    assert_eq!(g.draw(&cam).atlas, Atlas::Goblin);
}
