use third_person_rig::input::{accumulate_mouse, camera_key_is_pressed, command_offset,
    direction_command_is_pressed, resolve_command, HeldKeys, MouseDelta, MoveCommand};
use third_person_rig::settings::{UserKeymap, KEY_CODE_A, KEY_CODE_ARROW_LEFT,
    KEY_CODE_ARROW_RIGHT, KEY_CODE_D, KEY_CODE_S, KEY_CODE_W};

fn default_keymap() -> UserKeymap {
    UserKeymap::default()
}

#[test]
fn resolver_priority_diagonals_first() {
    let km = default_keymap();
    let fr = HeldKeys::from_codes(vec![KEY_CODE_W, KEY_CODE_D]);
    assert_eq!(resolve_command(&fr, &km), Some(MoveCommand::ForwardRight));
    let fl = HeldKeys::from_codes(vec![KEY_CODE_W, KEY_CODE_A]);
    assert_eq!(resolve_command(&fl, &km), Some(MoveCommand::ForwardLeft));
    let br = HeldKeys::from_codes(vec![KEY_CODE_S, KEY_CODE_D]);
    assert_eq!(resolve_command(&br, &km), Some(MoveCommand::BackRight));
    let bl = HeldKeys::from_codes(vec![KEY_CODE_S, KEY_CODE_A]);
    assert_eq!(resolve_command(&bl, &km), Some(MoveCommand::BackLeft));
}

#[test]
fn resolver_singles_and_none() {
    let km = default_keymap();
    let f = HeldKeys::from_codes(vec![KEY_CODE_W]);
    assert_eq!(resolve_command(&f, &km), Some(MoveCommand::Forward));
    let b = HeldKeys::from_codes(vec![KEY_CODE_S]);
    assert_eq!(resolve_command(&b, &km), Some(MoveCommand::Back));
    let l = HeldKeys::from_codes(vec![KEY_CODE_A]);
    assert_eq!(resolve_command(&l, &km), Some(MoveCommand::Left));
    let r = HeldKeys::from_codes(vec![KEY_CODE_D]);
    assert_eq!(resolve_command(&r, &km), Some(MoveCommand::Right));
    let none = HeldKeys::none();
    assert_eq!(resolve_command(&none, &km), None);
    // a camera key alone is no movement input
    let cam = HeldKeys::from_codes(vec![KEY_CODE_ARROW_LEFT]);
    assert_eq!(resolve_command(&cam, &km), None);
}

#[test]
fn three_keys_collapse_to_first_diagonal() {
    let km = default_keymap();
    // forward+right wins over the also-held left
    let three = HeldKeys::from_codes(vec![KEY_CODE_A, KEY_CODE_W, KEY_CODE_D]);
    assert_eq!(resolve_command(&three, &km), Some(MoveCommand::ForwardRight));
    // all four held: still forward+right
    let four = HeldKeys::from_codes(vec![KEY_CODE_S, KEY_CODE_A, KEY_CODE_W, KEY_CODE_D]);
    assert_eq!(resolve_command(&four, &km), Some(MoveCommand::ForwardRight));
    // back+left+right: back+right wins
    let blr = HeldKeys::from_codes(vec![KEY_CODE_S, KEY_CODE_A, KEY_CODE_D]);
    assert_eq!(resolve_command(&blr, &km), Some(MoveCommand::BackRight));
    // forward and back without sides: forward wins
    let fb = HeldKeys::from_codes(vec![KEY_CODE_S, KEY_CODE_W]);
    assert_eq!(resolve_command(&fb, &km), Some(MoveCommand::Forward));
}

#[test]
fn remapped_keys_are_respected() {
    let km = UserKeymap {
        forward: 1,
        back: 2,
        left: 3,
        right: 4,
        camera_up: 5,
        camera_down: 6,
        camera_left: 7,
        camera_right: 8,
    };
    let keys = HeldKeys::from_codes(vec![1, 4]);
    assert_eq!(resolve_command(&keys, &km), Some(MoveCommand::ForwardRight));
    // the default bindings mean nothing under the remap
    let default_codes = HeldKeys::from_codes(vec![KEY_CODE_W, KEY_CODE_D]);
    assert_eq!(resolve_command(&default_codes, &km), None);
    assert!(camera_key_is_pressed(&HeldKeys::from_codes(vec![7]), &km));
}

#[test]
fn diagonal_offset_is_bisector_of_forward_and_right() {
    // forward is the zero offset, right a quarter turn clockwise; the
    // diagonal sits exactly half way between them
    assert_eq!(command_offset(MoveCommand::Forward), 0);
    assert_eq!(command_offset(MoveCommand::Right), -90_000);
    assert_eq!(command_offset(MoveCommand::ForwardRight), -45_000);
    assert_eq!(command_offset(MoveCommand::ForwardLeft), 45_000);
    assert_eq!(command_offset(MoveCommand::BackRight), -135_000);
    assert_eq!(command_offset(MoveCommand::BackLeft), 135_000);
    assert_eq!(command_offset(MoveCommand::Back), 180_000);
    assert_eq!(command_offset(MoveCommand::Left), 90_000);
}

#[test]
fn guards_see_movement_and_camera_keys() {
    let km = default_keymap();
    assert!(!direction_command_is_pressed(&HeldKeys::none(), &km));
    assert!(direction_command_is_pressed(&HeldKeys::from_codes(vec![KEY_CODE_S]), &km));
    assert!(!camera_key_is_pressed(&HeldKeys::from_codes(vec![KEY_CODE_S]), &km));
    assert!(camera_key_is_pressed(&HeldKeys::from_codes(vec![KEY_CODE_ARROW_RIGHT]), &km));
}

#[test]
fn mouse_accumulation_is_order_insensitive() {
    let a = vec![
        MouseDelta { dx: 3, dy: -1 },
        MouseDelta { dx: -7, dy: 2 },
        MouseDelta { dx: 10, dy: 0 },
    ];
    let b = vec![
        MouseDelta { dx: 10, dy: 0 },
        MouseDelta { dx: 3, dy: -1 },
        MouseDelta { dx: -7, dy: 2 },
    ];
    assert_eq!(accumulate_mouse(&a), (6, 1));
    assert_eq!(accumulate_mouse(&a), accumulate_mouse(&b));
    assert_eq!(accumulate_mouse(&Vec::new()), (0, 0));
}
