use third_person_rig::angle::Angle;
use third_person_rig::geom::Vec3Fx;
use third_person_rig::pivot::ThirdPersCameraPivot;
use third_person_rig::rig::Rig;
use third_person_rig::settings::UserSettings;

fn rig_with_pivot(pivot: ThirdPersCameraPivot) -> Rig {
    let mut rig = Rig::new(UserSettings::default());
    rig.pivot = Some(pivot);
    rig
}

#[test]
fn camera_sits_behind_an_unrotated_pivot() {
    let rig = Rig::setup_scene(UserSettings::default());
    let cam = rig.camera_world_position().unwrap();
    // the default offset: ten units along positive z from the pivot
    assert_eq!((cam.x, cam.y, cam.z), (0, 0, 10_000_000));
}

#[test]
fn camera_orbits_with_pivot_yaw() {
    let pivot = ThirdPersCameraPivot {
        position: Vec3Fx::new(1_000_000, 2_000_000, 3_000_000),
        yaw: Angle::new(90_000),
        pitch: Angle::new(0),
    };
    let cam = rig_with_pivot(pivot).camera_world_position().unwrap();
    // a quarter turn of yaw swings the offset from positive z onto
    // positive x, exactly, on top of the pivot's own position
    assert_eq!((cam.x, cam.y, cam.z), (11_000_000, 2_000_000, 3_000_000));
}

#[test]
fn camera_pitch_is_unclamped_past_vertical() {
    let pivot = ThirdPersCameraPivot {
        position: Vec3Fx::zero(),
        yaw: Angle::new(0),
        pitch: Angle::new(90_000),
    };
    let cam = rig_with_pivot(pivot).camera_world_position().unwrap();
    // a quarter turn of pitch tips the offset straight down; nothing
    // stops the camera at the vertical
    assert_eq!((cam.x, cam.y, cam.z), (0, -10_000_000, 0));
}

#[test]
fn no_pivot_means_no_camera_position() {
    let rig = Rig::new(UserSettings::default());
    assert!(rig.camera_world_position().is_none());
}
