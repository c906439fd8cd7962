use third_person_rig::input::{HeldKeys, MouseDelta};
use third_person_rig::rig::Rig;
use third_person_rig::settings::{UserSettings, KEY_CODE_A, KEY_CODE_ARROW_DOWN,
    KEY_CODE_ARROW_LEFT, KEY_CODE_ARROW_RIGHT, KEY_CODE_W};

/// A sixtieth of a second, in microseconds.
const TICK_US: u64 = 16_666;

/// The walking distance of one such tick, in micro-units.
const TICK_WALK: i64 = 166_660;

/// The character turn budget of one such tick, in millidegrees.
const TICK_TURN: u32 = 4_774;

/// The keyboard camera nudge of one such tick, in millidegrees.
const TICK_NUDGE: u32 = 954;

fn no_mouse() -> Vec<MouseDelta> {
    Vec::new()
}

#[test]
fn idle_ticks_leave_character_unchanged() {
    let mut rig = Rig::setup_scene(UserSettings::default());
    let keys = HeldKeys::none();
    for _ in 0..50 {
        rig.tick(&keys, &no_mouse(), TICK_US);
    }
    let c = rig.character.as_ref().unwrap();
    assert_eq!((c.position.x, c.position.y, c.position.z), (0, 1_500_000, 0));
    assert_eq!(c.facing.mdeg, 0);
    assert_eq!(c.look_dir.mdeg, 0);
}

#[test]
fn pivot_position_tracks_character_every_tick() {
    let mut rig = Rig::setup_scene(UserSettings::default());
    let keys = HeldKeys::from_codes(vec![KEY_CODE_W]);
    // rotate the camera before and while walking; the sync step still
    // copies the character's position every tick
    let spin = vec![MouseDelta { dx: 17, dy: -5 }];
    for _ in 0..25 {
        rig.tick(&keys, &spin, TICK_US);
        let c = rig.character.as_ref().unwrap();
        let p = rig.pivot.as_ref().unwrap();
        assert_eq!(p.position.x, c.position.x);
        assert_eq!(p.position.y, c.position.y);
        assert_eq!(p.position.z, c.position.z);
    }
}

#[test]
fn zero_mouse_deltas_leave_pivot_rotation_unchanged() {
    let mut rig = Rig::setup_scene(UserSettings::default());
    let keys = HeldKeys::none();
    // deltas that cancel leave the summed motion at zero
    let cancelling = vec![
        MouseDelta { dx: 0, dy: 0 },
        MouseDelta { dx: 9, dy: -4 },
        MouseDelta { dx: -9, dy: 4 },
    ];
    for _ in 0..20 {
        rig.tick(&keys, &cancelling, TICK_US);
    }
    let p = rig.pivot.as_ref().unwrap();
    assert_eq!(p.yaw.mdeg, 0);
    assert_eq!(p.pitch.mdeg, 0);
}

#[test]
fn sustained_rightward_mouse_turns_yaw_clockwise_monotonically() {
    let mut rig = Rig::setup_scene(UserSettings::default());
    let keys = HeldKeys::none();
    let steady = vec![MouseDelta { dx: 10, dy: 0 }];
    // the per-tick turn: 10 counts * 45837 mdeg per count-second
    // * 16666 us / 1e6, scaled down by 1e6
    let per_tick: i64 = 10 * 45_837 * 16_666 / 1_000_000;
    assert_eq!(per_tick, 7_639);
    let mut expected_unwrapped: i64 = 0;
    for _ in 0..100 {
        rig.tick(&keys, &steady, TICK_US);
        expected_unwrapped -= per_tick;
        let p = rig.pivot.as_ref().unwrap();
        assert_eq!(p.yaw.mdeg as i64, expected_unwrapped.rem_euclid(360_000));
        // pitch is untouched by purely horizontal motion
        assert_eq!(p.pitch.mdeg, 0);
    }
}

#[test]
fn keyboard_camera_nudges_and_cancels() {
    let mut rig = Rig::setup_scene(UserSettings::default());
    // camera-left turns the pivot clockwise
    rig.tick(&HeldKeys::from_codes(vec![KEY_CODE_ARROW_LEFT]), &no_mouse(), TICK_US);
    assert_eq!(rig.pivot.as_ref().unwrap().yaw.mdeg, 360_000 - TICK_NUDGE);
    // opposing keys held together cancel
    let both = HeldKeys::from_codes(vec![KEY_CODE_ARROW_LEFT, KEY_CODE_ARROW_RIGHT]);
    rig.tick(&both, &no_mouse(), TICK_US);
    assert_eq!(rig.pivot.as_ref().unwrap().yaw.mdeg, 360_000 - TICK_NUDGE);
    // camera-down pitches the pivot, independent of the yaw keys
    rig.tick(&HeldKeys::from_codes(vec![KEY_CODE_ARROW_DOWN]), &no_mouse(), TICK_US);
    assert_eq!(rig.pivot.as_ref().unwrap().pitch.mdeg, TICK_NUDGE);
}

#[test]
fn walking_forward_moves_along_world_forward() {
    let mut rig = Rig::setup_scene(UserSettings::default());
    let keys = HeldKeys::from_codes(vec![KEY_CODE_W]);
    for _ in 0..60 {
        rig.tick(&keys, &no_mouse(), TICK_US);
    }
    let c = rig.character.as_ref().unwrap();
    // already aligned with the desired look: the facing never changes
    assert_eq!(c.facing.mdeg, 0);
    assert_eq!(c.look_dir.mdeg, 0);
    // close to ten units along world-forward, exactly sixty tick steps
    assert_eq!(c.position.z, -60 * TICK_WALK);
    assert_eq!(c.position.x, 0);
    assert_eq!(c.position.y, 1_500_000);
}

#[test]
fn holding_left_converges_then_moves_left_exactly() {
    let mut rig = Rig::setup_scene(UserSettings::default());
    let keys = HeldKeys::from_codes(vec![KEY_CODE_A]);
    // the desired look snaps to a quarter turn counter-clockwise on
    // the first tick, and the facing arrives once the turn budget
    // covers the quarter turn: 19 ticks at 4774 millidegrees each
    let mut ticks_to_arrive = 0u32;
    while rig.character.as_ref().unwrap().facing.mdeg != 90_000 {
        rig.tick(&keys, &no_mouse(), TICK_US);
        assert_eq!(rig.character.as_ref().unwrap().look_dir.mdeg, 90_000);
        ticks_to_arrive += 1;
        assert!(ticks_to_arrive <= 30, "facing failed to converge");
    }
    assert_eq!(ticks_to_arrive, (90_000 + TICK_TURN - 1) / TICK_TURN);
    // once aligned, every further tick moves exactly along negative x
    let arrived = rig.character.as_ref().unwrap().position;
    for _ in 0..10 {
        rig.tick(&keys, &no_mouse(), TICK_US);
    }
    let c = rig.character.as_ref().unwrap();
    assert_eq!(c.facing.mdeg, 90_000);
    assert_eq!(c.position.x, arrived.x - 10 * TICK_WALK);
    assert_eq!(c.position.z, arrived.z);
    assert_eq!(c.position.y, 1_500_000);
}

#[test]
fn missing_singletons_make_steps_no_ops() {
    let mut rig = Rig::new(UserSettings::default());
    assert!(rig.character.is_none());
    assert!(rig.pivot.is_none());
    // a full tick on an empty rig changes nothing and does not fail
    rig.tick(
        &HeldKeys::from_codes(vec![KEY_CODE_W]),
        &vec![MouseDelta { dx: 3, dy: 3 }],
        TICK_US,
    );
    assert!(rig.character.is_none());
    assert!(rig.pivot.is_none());
}

#[test]
fn forward_right_snaps_look_to_the_bisector() {
    let mut rig = Rig::setup_scene(UserSettings::default());
    let keys = HeldKeys::from_codes(vec![
        KEY_CODE_W,
        third_person_rig::settings::KEY_CODE_D,
    ]);
    rig.tick(&keys, &no_mouse(), TICK_US);
    let c = rig.character.as_ref().unwrap();
    // the bisector of forward (0) and right (a quarter turn clockwise)
    assert_eq!(c.look_dir.mdeg, 315_000);
    // the facing starts chasing it clockwise, one budget per tick
    assert_eq!(c.facing.mdeg, 360_000 - TICK_TURN);
}
