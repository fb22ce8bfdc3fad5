use celestial_raster::camera::{Camera, FX_TWO_PI, PITCH_MAX_FX, PITCH_MIN_FX};
use celestial_raster::fixed::{FxVec3, FX_ONE};
use celestial_raster::fragment::CelestialType;
use celestial_raster::scene::{get_body_position, BodyManager, CelestialBody};

fn default_camera() -> Camera {
    Camera::new(
        FxVec3::new(0, 0, 0),
        10 * FX_ONE,
        0,
        0,
        FxVec3::new(0, FX_ONE, 0),
    )
}

#[test]
fn orbit_a_thousand_steps_up_stays_inside_the_gimbal_interval() {
    let mut cam = default_camera();
    for _ in 0..1000 {
        cam.orbit(0, FX_ONE);
    }
    assert!(PITCH_MIN_FX <= cam.pitch && cam.pitch <= PITCH_MAX_FX);
    // Strictly inside the open interval (-pi/2 + 0.1, pi/2 - 0.1).
    let pitch = cam.pitch as f64 / FX_ONE as f64;
    let pole = std::f64::consts::FRAC_PI_2 - 0.1;
    assert!(pitch < pole);
    assert!(pitch > -pole);
    assert_eq!(cam.pitch, PITCH_MAX_FX);
}

#[test]
fn orbit_a_thousand_steps_down_stays_inside_the_gimbal_interval() {
    let mut cam = default_camera();
    for _ in 0..1000 {
        cam.orbit(0, -FX_ONE);
    }
    assert_eq!(cam.pitch, PITCH_MIN_FX);
    let pitch = cam.pitch as f64 / FX_ONE as f64;
    let pole = std::f64::consts::FRAC_PI_2 - 0.1;
    assert!(pitch > -pole);
}

#[test]
fn orbit_wraps_yaw_into_one_turn() {
    let mut cam = default_camera();
    cam.orbit(FX_TWO_PI + 5, 0);
    assert_eq!(cam.yaw, 5);
    cam.orbit(-10, 0);
    assert_eq!(cam.yaw, FX_TWO_PI - 5);
}

#[test]
fn orbit_keeps_center_radius_and_up() {
    let mut cam = default_camera();
    cam.orbit(1234, -5678);
    assert_eq!(cam.center, FxVec3::new(0, 0, 0));
    assert_eq!(cam.up, FxVec3::new(0, FX_ONE, 0));
    assert_eq!(cam.radius, 10 * FX_ONE);
}

#[test]
fn zoom_shortens_the_radius_without_reclamping() {
    let mut cam = default_camera();
    cam.zoom(3 * FX_ONE);
    assert_eq!(cam.radius, 7 * FX_ONE);
    cam.zoom(-FX_ONE);
    assert_eq!(cam.radius, 8 * FX_ONE);
}

#[test]
fn check_if_changed_is_a_one_shot_read() {
    let mut cam = default_camera();
    // The flag starts set and is consumed by the first check.
    assert!(cam.check_if_changed());
    assert!(!cam.check_if_changed());
    // Any mutator sets it again, even with zero deltas.
    cam.orbit(0, 0);
    assert!(cam.check_if_changed());
    assert!(!cam.check_if_changed());
    cam.zoom(0);
    assert!(cam.check_if_changed());
}

#[test]
fn camera_new_wraps_and_clamps() {
    let cam = Camera::new(
        FxVec3::new(0, 0, 0),
        FX_ONE,
        -3,
        10 * FX_ONE,
        FxVec3::new(0, FX_ONE, 0),
    );
    assert_eq!(cam.yaw, FX_TWO_PI - 3);
    assert_eq!(cam.pitch, PITCH_MAX_FX);
    assert!(cam.has_changed);
}

#[test]
fn body_manager_cycles_through_all_seven_bodies() {
    let mut m = BodyManager::new();
    let expected = [
        CelestialBody::Star,
        CelestialBody::Planet,
        CelestialBody::GasGiant,
        CelestialBody::Ringed,
        CelestialBody::Moon,
        CelestialBody::Comet,
        CelestialBody::Nebula,
    ];
    for body in expected.iter() {
        assert_eq!(m.current(), *body);
        m.next();
    }
    assert_eq!(m.current(), CelestialBody::Star);
}

#[test]
fn body_manager_select_ignores_out_of_range() {
    let mut m = BodyManager::new();
    m.select(3);
    assert_eq!(m.current(), CelestialBody::Ringed);
    m.select(99);
    assert_eq!(m.current(), CelestialBody::Ringed);
    m.select(0);
    assert_eq!(m.current(), CelestialBody::Star);
}

#[test]
fn body_manager_zoom_has_a_floor() {
    let mut m = BodyManager::new();
    assert_eq!(m.zoom_level, 10 * FX_ONE);
    m.zoom_in();
    // 10.0 * 10 / 11, rounded toward zero.
    assert_eq!(m.zoom_level, 595781);
    for _ in 0..200 {
        m.zoom_in();
    }
    assert_eq!(m.zoom_level, FX_ONE);
    m.zoom_out();
    assert_eq!(m.zoom_level, 72089);
}

#[test]
fn every_body_maps_to_its_shader_tag() {
    assert_eq!(CelestialBody::Star.to_celestial_type(), CelestialType::Star);
    assert_eq!(CelestialBody::Planet.to_celestial_type(), CelestialType::Planet);
    assert_eq!(CelestialBody::GasGiant.to_celestial_type(), CelestialType::GasGiant);
    assert_eq!(CelestialBody::Ringed.to_celestial_type(), CelestialType::Ringed);
    assert_eq!(CelestialBody::Moon.to_celestial_type(), CelestialType::Moon);
    assert_eq!(CelestialBody::Comet.to_celestial_type(), CelestialType::Comet);
    assert_eq!(CelestialBody::Nebula.to_celestial_type(), CelestialType::Atmosphere);
}

#[test]
fn bodies_render_at_the_origin() {
    assert_eq!(
        get_body_position(&CelestialBody::Comet, 42),
        FxVec3::new(0, 0, 0)
    );
}
