use goblins::screen::game::{
    check_input, GameScreen, Input, INPUT_ATTACK, INPUT_LEFT, INPUT_UP,
};
use goblins::screen::title::TitleScreen;
use goblins::screen::{ActiveScreen, Key, MouseButton, RedirectHandler, Screen};

#[test]
fn check_input_tests_all_given_bits() {
    let held = Input { bits: INPUT_LEFT | INPUT_UP };
    assert!(check_input(held, Input { bits: INPUT_LEFT }));
    assert!(check_input(held, Input { bits: INPUT_LEFT | INPUT_UP }));
    assert!(!check_input(held, Input { bits: INPUT_ATTACK }));
    assert!(!check_input(held, Input { bits: INPUT_LEFT | INPUT_ATTACK }));
    assert!(check_input(held, Input { bits: 0 }));
}

#[test]
fn keys_lower_and_raise_input_bits() {
    let mut s = GameScreen::new((640, 480));
    s.on_key_down(Key::Left);
    assert_eq!(s.current_input.bits, INPUT_LEFT);
    s.on_key_down(Key::Up);
    assert_eq!(s.current_input.bits, INPUT_LEFT | INPUT_UP);
    s.on_key_down(Key::Other);
    assert_eq!(s.current_input.bits, INPUT_LEFT | INPUT_UP);
    s.on_key_up(Key::Left);
    assert_eq!(s.current_input.bits, INPUT_UP);
    s.on_key_up(Key::X);
    assert_eq!(s.current_input.bits, INPUT_UP);
}

#[test]
fn escape_requests_the_title_scene() {
    let mut s = GameScreen::new((640, 480));
    s.on_key_down(Key::Escape);
    let next = s.change_screen();
    assert!(matches!(next.as_deref(), Some(ActiveScreen::Title(_))));
    assert!(s.new_screen.is_none());
    assert!(s.change_screen().is_none());
}

#[test]
fn space_on_the_title_starts_a_game() {
    let mut t = TitleScreen::new((640, 480));
    t.on_key_down(Key::Other);
    assert!(t.change_screen().is_none());
    t.on_key_down(Key::Space);
    let next = t.change_screen();
    assert!(matches!(next.as_deref(), Some(ActiveScreen::Game(_))));
}

#[test]
fn start_event_starts_a_game() {
    let mut t = TitleScreen::new((640, 480));
    t.on_user_event("pause");
    assert!(t.change_screen().is_none());
    t.on_user_event("start");
    assert!(matches!(
        t.change_screen().as_deref(),
        Some(ActiveScreen::Game(_))
    ));
}

#[test]
fn start_button_click_fires_once_per_press() {
    let mut t = TitleScreen::new((640, 480));
    // the button is 180 x 60 centred on (320, 240)
    assert_eq!(t.start_button.left, 230);
    assert_eq!(t.start_button.top, 210);
    assert_eq!(t.start_button.right, 410);
    assert_eq!(t.start_button.bottom, 270);
    t.on_mouse_move((300, 240));
    assert_eq!(t.on_mouse_button_down(MouseButton::Left), Some("start"));
    // the button is still held down
    assert_eq!(t.on_mouse_button_down(MouseButton::Left), None);
    t.on_mouse_button_up(MouseButton::Left);
    assert_eq!(t.on_mouse_button_down(MouseButton::Left), Some("start"));
}

#[test]
fn clicks_outside_or_with_other_buttons_do_nothing() {
    let mut t = TitleScreen::new((640, 480));
    t.on_mouse_move((100, 100));
    assert_eq!(t.on_mouse_button_down(MouseButton::Left), None);
    t.on_mouse_button_up(MouseButton::Left);
    t.on_mouse_move((300, 240));
    assert_eq!(t.on_mouse_button_down(MouseButton::Right), None);
}

#[test]
fn title_resize_recentres_the_button() {
    let mut t = TitleScreen::new((640, 480));
    t.on_resize((1000, 600));
    assert_eq!(t.res, (1000, 600));
    assert_eq!(t.start_button.left, 410);
    assert_eq!(t.start_button.top, 270);
}

#[test]
fn game_resize_scales_the_camera_viewport() {
    let mut s = GameScreen::new((640, 480));
    assert_eq!(s.camera.width, 64_000);
    assert_eq!(s.camera.height, 48_000);
    s.on_resize((800, 600));
    assert_eq!(s.camera.width, 80_000);
    assert_eq!(s.camera.height, 60_000);
    assert_eq!(s.res, (800, 600));
}

#[test]
fn redirect_handler_swaps_scenes_on_draw() {
    let mut rh = RedirectHandler::new(ActiveScreen::Title(TitleScreen::new((640, 480))));
    let cmds = rh.on_draw(0).unwrap();
    assert_eq!(cmds.len(), 0);
    rh.on_key_down(Key::Space);
    // the swap happens at the start of the next frame
    let cmds2 = rh.on_draw(5).unwrap();
    assert!(matches!(rh.my_handler, ActiveScreen::Game(_)));
    // first game frame: 30 tiles, no goblins yet, the player on top
    assert_eq!(cmds2.len(), 31);
}

#[test]
fn redirect_handler_routes_events_to_the_live_scene() {
    let mut rh = RedirectHandler::new(ActiveScreen::Game(GameScreen::new((640, 480))));
    rh.on_key_down(Key::Left);
    match &rh.my_handler {
        ActiveScreen::Game(g) => assert_eq!(g.current_input.bits, INPUT_LEFT),
        ActiveScreen::Title(_) => panic!("wrong scene"),
    }
    rh.on_key_up(Key::Left);
    match &rh.my_handler {
        ActiveScreen::Game(g) => assert_eq!(g.current_input.bits, 0),
        ActiveScreen::Title(_) => panic!("wrong scene"),
    }
    rh.on_resize((320, 200));
    match &rh.my_handler {
        ActiveScreen::Game(g) => assert_eq!(g.camera.width, 32_000),
        ActiveScreen::Title(_) => panic!("wrong scene"),
    }
}

#[test]
fn a_pending_switch_is_handed_over_exactly_once() {
    let mut t = TitleScreen::new((640, 480));
    t.on_key_down(Key::Space);
    assert!(t.change_screen().is_some());
    assert!(t.change_screen().is_none());
    let mut g = GameScreen::new((640, 480));
    g.on_key_down(Key::Escape);
    assert!(g.change_screen().is_some());
    assert!(g.change_screen().is_none());
}
