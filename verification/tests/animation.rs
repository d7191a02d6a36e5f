use goblins::utility::animation::{AnimSeq, Animation, AnimationSelectError};

fn movement_frames() -> Vec<AnimSeq> {
    vec![
        AnimSeq {
            name: "move left".to_owned(),
            looping: true,
            cells: vec![(3, 0), (4, 0)],
        },
        AnimSeq {
            name: "move right".to_owned(),
            looping: true,
            cells: vec![(1, 0), (2, 0)],
        },
        AnimSeq {
            name: "attack".to_owned(),
            looping: false,
            cells: vec![(0, 2), (1, 2), (2, 2)],
        },
    ]
}

fn machine() -> Animation {
    Animation::new((8, 10), movement_frames(), (0, 0), 100)
}

#[test]
fn fresh_machine_shows_idle_cell() {
    let a = machine();
    assert_eq!(a.current, (0, 0));
    assert!(a.selected.is_none());
    assert!(a.intercepted.is_none());
    assert_eq!(a.frame, 0);
}

#[test]
fn select_same_name_twice_keeps_frame() {
    let mut a = machine();
    assert!(a.select("move left").is_ok());
    assert_eq!(a.frame, 0);
    assert_eq!(a.current, (3, 0));
    let fin = a.advance(100);
    assert!(!fin);
    assert_eq!(a.frame, 1);
    assert_eq!(a.current, (4, 0));
    // re-selecting the active animation must not restart it
    assert!(a.select("move left").is_ok());
    assert_eq!(a.frame, 1);
    assert_eq!(a.current, (4, 0));
}

#[test]
fn select_other_name_restarts() {
    let mut a = machine();
    assert!(a.select("move left").is_ok());
    a.advance(100);
    assert_eq!(a.frame, 1);
    assert!(a.select("move right").is_ok());
    assert_eq!(a.frame, 0);
    assert_eq!(a.current, (1, 0));
    assert_eq!(a.selected, Some(1));
}

#[test]
fn unknown_name_fails_and_changes_nothing() {
    let mut a = machine();
    assert!(a.select("move left").is_ok());
    a.advance(100);
    let before_frame = a.frame;
    let before_cell = a.current;
    let before_sel = a.selected;
    assert_eq!(a.select("fly"), Err(AnimationSelectError::NotFound));
    assert_eq!(a.intercept("fly"), Err(AnimationSelectError::NotFound));
    assert_eq!(a.frame, before_frame);
    assert_eq!(a.current, before_cell);
    assert_eq!(a.selected, before_sel);
    assert!(a.intercepted.is_none());
}

#[test]
fn nonlooping_intercept_finishes_exactly_once_and_holds() {
    let mut a = machine();
    assert!(a.intercept("attack").is_ok());
    assert_eq!(a.intercepted, Some(2));
    assert_eq!(a.current, (0, 2));
    // length 3: two advances reach the last cell, the third reports finished
    assert!(!a.advance(100));
    assert_eq!(a.current, (1, 2));
    assert!(!a.advance(200));
    assert_eq!(a.current, (2, 2));
    let fin = a.advance(300);
    assert!(fin);
    assert!(a.intercepted.is_none());
    // holds the last frame, and never reports finished again
    assert_eq!(a.current, (2, 2));
    assert!(!a.advance(400));
    assert_eq!(a.current, (2, 2));
    assert!(!a.advance(500));
    assert_eq!(a.current, (2, 2));
}

#[test]
fn reintercepting_running_intercept_does_not_restart() {
    let mut a = machine();
    assert!(a.intercept("attack").is_ok());
    a.advance(100);
    assert_eq!(a.frame, 1);
    assert!(a.intercept("attack").is_ok());
    assert_eq!(a.frame, 1);
}

#[test]
fn intercept_outranks_selection() {
    let mut a = machine();
    assert!(a.select("move left").is_ok());
    assert!(a.intercept("attack").is_ok());
    assert_eq!(a.current, (0, 2));
    // selecting while intercepted changes nothing
    assert!(a.select("move right").is_ok());
    assert_eq!(a.selected, Some(0));
    assert_eq!(a.current, (0, 2));
}

#[test]
fn selection_resumes_after_intercept_finishes() {
    let mut a = machine();
    assert!(a.select("move left").is_ok());
    assert!(a.intercept("attack").is_ok());
    a.advance(100);
    a.advance(200);
    assert!(a.advance(300));
    assert_eq!(a.selected, Some(0));
    // the next advance steps the selection again, from its start
    assert!(!a.advance(400));
    assert_eq!(a.current, (4, 0));
}

#[test]
fn looping_sequence_wraps_to_start() {
    let mut a = machine();
    assert!(a.select("move right").is_ok());
    assert!(!a.advance(100));
    assert_eq!(a.current, (2, 0));
    assert!(!a.advance(200));
    assert_eq!(a.current, (1, 0));
    assert_eq!(a.frame, 0);
}

#[test]
fn advance_waits_for_full_interval() {
    let mut a = machine();
    assert!(a.select("move left").is_ok());
    assert!(!a.advance(99));
    assert_eq!(a.frame, 0);
    assert!(!a.advance(100));
    assert_eq!(a.frame, 1);
    // only 99 ms since the last step
    assert!(!a.advance(199));
    assert_eq!(a.frame, 1);
}

#[test]
fn deselect_reverts_to_idle_cell() {
    let mut a = machine();
    assert!(a.select("move left").is_ok());
    a.advance(100);
    a.deselect();
    assert!(a.selected.is_none());
    assert_eq!(a.current, (0, 0));
    assert_eq!(a.frame, 0);
}

#[test]
fn deselect_leaves_running_intercept_alone() {
    let mut a = machine();
    assert!(a.select("move left").is_ok());
    assert!(a.intercept("attack").is_ok());
    a.deselect();
    assert!(a.selected.is_none());
    assert_eq!(a.intercepted, Some(2));
    assert_eq!(a.current, (0, 2));
}
