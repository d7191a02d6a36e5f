use goblins::screen::game::GameScreen;

#[test]
fn first_call_starts_the_timer() {
    let mut s = GameScreen::new((640, 480));
    assert_eq!(s.process_timer(50), 0);
    assert_eq!(s.start, Some(50));
    assert_eq!(s.goblins.len(), 0);
}

#[test]
fn drift_correction_keeps_the_overshoot() {
    // interval 1000 ms, ticks 400 ms apart: one spawn by the third tick,
    // and the timer keeps exactly the 200 ms overshoot
    let mut s = GameScreen::new((640, 480));
    assert_eq!(s.process_timer(0), 0);
    assert_eq!(s.process_timer(400), 0);
    assert_eq!(s.process_timer(800), 0);
    assert_eq!(s.goblins.len(), 0);
    assert_eq!(s.process_timer(1200), 1);
    assert_eq!(s.goblins.len(), 1);
    assert_eq!(s.start, Some(1000));
    // so the next spawn is owed at 2000, not at 2200
    assert_eq!(s.process_timer(1999), 0);
    assert_eq!(s.process_timer(2000), 1);
    assert_eq!(s.start, Some(2000));
}

#[test]
fn a_spawn_fires_exactly_at_the_interval() {
    let mut s = GameScreen::new((640, 480));
    assert_eq!(s.process_timer(0), 0);
    assert_eq!(s.process_timer(999), 0);
    assert_eq!(s.process_timer(1000), 1);
}

#[test]
fn catch_up_spawns_one_goblin_per_missed_interval() {
    let mut s = GameScreen::new((640, 480));
    assert_eq!(s.process_timer(100), 0);
    assert_eq!(s.process_timer(3_600), 3);
    assert_eq!(s.goblins.len(), 3);
    assert_eq!(s.start, Some(3_100));
}

#[test]
fn spawned_goblins_start_at_the_spawn_point() {
    let mut s = GameScreen::new((640, 480));
    s.process_timer(0);
    s.process_timer(2_500);
    assert_eq!(s.goblins.len(), 2);
    for g in &s.goblins {
        assert_eq!(g.pos.x, 0);
        assert_eq!(g.pos.y, 0);
        assert!(!g.attacking);
    }
}
