use goblins::utility::serial_namer::SerialNamer;
use goblins::utility::str_eq;

#[test]
fn serial_ids_count_up_from_zero() {
    let mut n = SerialNamer::new();
    assert_eq!(n.gen_name(), 0);
    assert_eq!(n.gen_name(), 1);
    assert_eq!(n.gen_name(), 2);
    assert_eq!(n.next_id, 3);
}

#[test]
fn str_eq_compares_contents() {
    assert!(str_eq("move left", "move left"));
    assert!(!str_eq("move left", "move right"));
    assert!(!str_eq("move", "move "));
    assert!(str_eq("", ""));
    let owned = String::from("attack");
    assert!(str_eq(owned.as_str(), "attack"));
}
