use goblins::entity::{Atlas, Entity};
use goblins::screen::game::GameScreen;
use goblins::world::space::GamePos;

#[test]
fn first_frame_builds_the_world() {
    let mut s = GameScreen::new((640, 480));
    let cmds = s.on_draw(0).unwrap();
    // 30 background tiles and the player; no goblins yet
    assert_eq!(cmds.len(), 31);
    let background = s.background.as_ref().unwrap();
    assert_eq!(background.len(), 30);
    for (k, (id, e)) in background.iter().enumerate() {
        assert_eq!(*id, k as u64);
        match e {
            Entity::Tile(t) => {
                assert_eq!(t.pos.x, (k as i64 - 10) * 5_000);
                assert_eq!(t.pos.y, 10_000);
                assert!(t.anim.current.0 < 4 && t.anim.current.1 < 4);
            },
            _ => panic!("the background holds tiles"),
        }
    }
    let p = s.player.as_ref().unwrap();
    // one tick grounded the player
    assert_eq!(p.pos.x, 300_000);
    assert_eq!(p.pos.y, 0);
    // the camera reads the player position from the start of the frame
    assert_eq!(s.camera.pos, GamePos { x: 300_000, y: 0 });
}

#[test]
fn draw_order_is_goblins_background_player() {
    let mut s = GameScreen::new((640, 480));
    s.on_draw(0).unwrap();
    let cmds = s.on_draw(1_500).unwrap();
    // the timer started at 0, so 1500 ms owes one goblin
    assert_eq!(s.goblins.len(), 1);
    assert_eq!(cmds.len(), 32);
    assert_eq!(cmds[0].atlas, Atlas::Goblin);
    for cmd in &cmds[1..31] {
        assert_eq!(cmd.atlas, Atlas::Tile);
    }
    assert_eq!(cmds[31].atlas, Atlas::Player);
}

#[test]
fn a_spawned_goblin_chases_the_player_at_once() {
    let mut s = GameScreen::new((640, 480));
    s.on_draw(0).unwrap();
    s.on_draw(1_000).unwrap();
    let g = &s.goblins[0];
    // the player stands far to the right: the goblin accelerates toward
    // it and is then dragged, so it has already moved
    assert_eq!(g.velocity.x, 90);
    assert_eq!(g.pos.x, 90);
    assert!(!g.attacking);
}

#[test]
fn frames_leave_held_input_alone() {
    let mut s = GameScreen::new((640, 480));
    s.on_key_down(goblins::screen::Key::Right);
    let bits = s.current_input.bits;
    s.on_draw(0).unwrap();
    s.on_draw(100).unwrap();
    assert_eq!(s.current_input.bits, bits);
    // the held key moved the player
    assert!(s.player.as_ref().unwrap().pos.x > 300_000);
}
