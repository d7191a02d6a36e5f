use goblins::entity::tile::Tile;
use goblins::entity::Atlas;
use goblins::screen::camera::{Camera, PixRect};
use goblins::world::space::GamePos;

#[test]
fn projection_is_affine_in_the_camera_frame() {
    // a 640 x 480 window at 10 pixels per world unit: the viewport spans
    // 64 x 48 world units, held as 64000 x 48000 fixed-point steps
    let cam = Camera::new(GamePos { x: 0, y: 0 }, 64_000, 48_000);
    // the camera position lands in the middle of the viewport
    assert_eq!(cam.game_to_pix(GamePos { x: 0, y: 0 }), (320_000, 240_000));
    // one world unit right is ten pixels right
    assert_eq!(
        cam.game_to_pix(GamePos { x: 1_000, y: 0 }),
        (330_000, 240_000)
    );
}

#[test]
fn projection_follows_the_camera() {
    let mut cam = Camera::new(GamePos { x: 0, y: 0 }, 64_000, 48_000);
    cam.moove(GamePos { x: 2_000, y: -500 });
    assert_eq!(cam.pos, GamePos { x: 2_000, y: -500 });
    assert_eq!(
        cam.game_to_pix(GamePos { x: 2_000, y: -500 }),
        (320_000, 240_000)
    );
}

#[test]
fn rect_contains_is_half_open() {
    let r = PixRect { left: 10, top: 20, right: 30, bottom: 40 };
    assert!(r.contains((10, 20)));
    assert!(r.contains((29, 39)));
    assert!(!r.contains((30, 20)));
    assert!(!r.contains((10, 40)));
    assert!(!r.contains((9, 25)));
}

#[test]
fn tile_draw_projects_its_bounds() {
    let cam = Camera::new(GamePos { x: 0, y: 0 }, 64_000, 48_000);
    let t = Tile::new((2, 3), GamePos { x: 0, y: 10_000 });
    let cmd = t.draw(&cam);
    assert_eq!(cmd.atlas, Atlas::Tile);
    assert_eq!(cmd.grid, (5, 5));
    assert_eq!(cmd.cell, (2, 3));
    assert_eq!(cmd.dest.left, 320_000);
    assert_eq!(cmd.dest.top, 340_000);
    // a tile is five world units across: fifty pixels
    assert_eq!(cmd.dest.right, 370_000);
    assert_eq!(cmd.dest.bottom, 390_000);
}

#[test]
fn tile_ignores_animation_and_acceleration() {
    let mut t = Tile::new((0, 0), GamePos { x: 0, y: 0 });
    assert!(t.set_anim("anything").is_ok());
    assert!(t.intercept_anim("anything").is_ok());
    t.remove_anim();
    t.accelerate(GamePos { x: 1_000, y: 1_000 });
    assert_eq!(t.anim.current, (0, 0));
    assert_eq!(t.get_pos(), GamePos { x: 0, y: 0 });
    t.moove(GamePos { x: 500, y: -500 });
    assert_eq!(t.get_pos(), GamePos { x: 500, y: -500 });
}
