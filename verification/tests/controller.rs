use raytracer::controls::cameracontroller::{
    CameraController, ControllerState, ElementState, KeyCode, MouseButton,
};
use raytracer::gpu::raytracer::compute_pipeline::{CameraUniform, ComputeState, EnvDimensions};
use raytracer::scalar::{Scalar, Vec3};
use raytracer::scene::scene::{Camera, Scene, PITCH_MAX_BITS, PITCH_MIN_BITS};

fn s(x: f32) -> Scalar {
    Scalar::from_bits(x.to_bits())
}

fn f(x: Scalar) -> f32 {
    f32::from_bits(x.to_bits())
}

fn v(x: glam::Vec3) -> Vec3 {
    Vec3::new(s(x.x), s(x.y), s(x.z))
}

fn g(x: Vec3) -> glam::Vec3 {
    glam::Vec3::new(f(x.x), f(x.y), f(x.z))
}

fn forward_of(camera: &Camera) -> glam::Vec3 {
    let pitch = f(camera.pitch);
    let yaw = f(camera.yaw);
    glam::Vec3::new(pitch.cos() * yaw.cos(), pitch.sin(), pitch.cos() * yaw.sin()).normalize()
}

fn right_of(camera: &Camera) -> glam::Vec3 {
    let yaw = f(camera.yaw);
    glam::Vec3::new(-yaw.sin(), 0.0, yaw.cos()).normalize()
}

/// One frame: the arithmetic of the host around the controller's two steps.
fn frame(controller: &mut CameraController, camera: &mut Camera, uniform: &mut CameraUniform, dt: f32) {
    let state = controller.state();
    let sensitivity = f(state.sensitivity);
    let speed = f(state.speed);
    let yaw = f(camera.yaw) + f(state.rotate_horizontal) * sensitivity * dt;
    let pitch = f(camera.pitch) + -f(state.rotate_vertical) * sensitivity * dt;
    controller.update_camera_rotation(camera, s(yaw), s(pitch));
    let forward = forward_of(camera);
    let right = right_of(camera);
    let mut position = g(camera.position);
    position += forward * (f(state.amount_forward) - f(state.amount_backward)) * speed * dt;
    position += right * (f(state.amount_right) - f(state.amount_left)) * speed * dt;
    position.y += (f(state.amount_up) - f(state.amount_down)) * speed * dt;
    controller.update_camera(camera, v(position), v(forward), uniform);
}

fn start() -> (CameraController, Camera, CameraUniform) {
    let controller = CameraController::new(s(100.0), s(0.6));
    let position = g(Scene::initial_position());
    let target = g(Scene::initial_target());
    let forward = (target - position).normalize();
    let yaw = forward.z.atan2(forward.x);
    let pitch = forward.y.clamp(-1.0, 1.0).asin();
    let scene = Scene::new(s(yaw), s(pitch));
    let compute = ComputeState::new(v(forward), s(800.0 / 1200.0), EnvDimensions { width: 1, height: 1 });
    (controller, scene.camera, compute.camera_uniform)
}

fn pitch_in_range(camera: &Camera) -> bool {
    let pitch = f(camera.pitch);
    pitch >= -1.49 && pitch <= 1.49
}

#[test]
fn a_new_controller_is_at_rest() {
    let state = CameraController::new(s(100.0), s(0.6)).state();
    let zero = s(0.0);
    assert_eq!(
        state,
        ControllerState {
            is_dragging: false,
            amount_left: zero,
            amount_right: zero,
            amount_forward: zero,
            amount_backward: zero,
            amount_up: zero,
            amount_down: zero,
            rotate_horizontal: zero,
            rotate_vertical: zero,
            scroll: zero,
            speed: s(100.0),
            sensitivity: s(0.6),
        }
    );
}

#[test]
fn each_key_sets_its_own_intent() {
    let keys = [KeyCode::KeyW, KeyCode::KeyS, KeyCode::KeyA, KeyCode::KeyD, KeyCode::KeyQ, KeyCode::KeyE];
    for (i, key) in keys.iter().enumerate() {
        let mut controller = CameraController::new(s(1.0), s(1.0));
        assert!(controller.process_keyboard(*key, ElementState::Pressed));
        let st = controller.state();
        let got = [
            st.amount_forward,
            st.amount_backward,
            st.amount_left,
            st.amount_right,
            st.amount_up,
            st.amount_down,
        ];
        for j in 0..6usize {
            assert_eq!(got[j], if i == j { s(1.0) } else { s(0.0) }, "key {} intent {}", i, j);
        }
        assert!(controller.process_keyboard(*key, ElementState::Released));
        assert_eq!(controller.state(), CameraController::new(s(1.0), s(1.0)).state());
    }
}

#[test]
fn an_unknown_key_is_ignored() {
    let mut controller = CameraController::new(s(1.0), s(1.0));
    controller.process_keyboard(KeyCode::KeyW, ElementState::Pressed);
    let before = controller.state();
    assert!(!controller.process_keyboard(KeyCode::Other, ElementState::Pressed));
    assert!(!controller.process_keyboard(KeyCode::Other, ElementState::Released));
    assert_eq!(controller.state(), before);
}

#[test]
fn keys_work_without_a_drag() {
    let mut controller = CameraController::new(s(1.0), s(1.0));
    assert!(!controller.state().is_dragging);
    controller.process_keyboard(KeyCode::KeyD, ElementState::Pressed);
    assert_eq!(controller.state().amount_right, s(1.0));
    controller.process_mouse_button(MouseButton::Left, ElementState::Pressed);
    controller.process_keyboard(KeyCode::KeyD, ElementState::Released);
    assert_eq!(controller.state().amount_right, s(0.0));
    assert!(controller.state().is_dragging);
}

#[test]
fn only_the_left_button_drags() {
    let mut controller = CameraController::new(s(1.0), s(1.0));
    for button in [MouseButton::Right, MouseButton::Middle, MouseButton::Other] {
        controller.process_mouse_button(button, ElementState::Pressed);
        assert!(!controller.state().is_dragging);
    }
    controller.process_mouse_button(MouseButton::Left, ElementState::Pressed);
    assert!(controller.state().is_dragging);
    for button in [MouseButton::Right, MouseButton::Middle, MouseButton::Other] {
        controller.process_mouse_button(button, ElementState::Released);
        assert!(controller.state().is_dragging);
    }
    controller.process_mouse_button(MouseButton::Left, ElementState::Released);
    assert!(!controller.state().is_dragging);
}

#[test]
fn motion_is_kept_while_dragging() {
    let mut controller = CameraController::new(s(1.0), s(1.0));
    controller.process_mouse_button(MouseButton::Left, ElementState::Pressed);
    controller.process_mouse(s(5.0), s(-3.0));
    assert_eq!(controller.state().rotate_horizontal, s(5.0));
    assert_eq!(controller.state().rotate_vertical, s(-3.0));
    controller.process_mouse(s(1.0), s(2.0));
    assert_eq!(controller.state().rotate_horizontal, s(1.0));
    assert_eq!(controller.state().rotate_vertical, s(2.0));
}

#[test]
fn motion_outside_a_drag_is_dropped() {
    let (mut controller, mut camera, mut uniform) = start();
    controller.process_mouse_button(MouseButton::Left, ElementState::Released);
    let before = controller.state();
    controller.process_mouse(s(5.0), s(5.0));
    assert_eq!(controller.state(), before);
    let yaw = camera.yaw;
    let pitch = camera.pitch;
    frame(&mut controller, &mut camera, &mut uniform, 0.5);
    assert_eq!(camera.yaw, yaw);
    assert_eq!(camera.pitch, pitch);
}

#[test]
fn motion_does_not_leak_across_a_release() {
    let mut controller = CameraController::new(s(1.0), s(1.0));
    controller.process_mouse_button(MouseButton::Left, ElementState::Pressed);
    controller.process_mouse_button(MouseButton::Left, ElementState::Released);
    controller.process_mouse(s(5.0), s(5.0));
    assert_eq!(controller.state().rotate_horizontal, s(0.0));
    assert_eq!(controller.state().rotate_vertical, s(0.0));
    controller.process_mouse_button(MouseButton::Left, ElementState::Pressed);
    assert_eq!(controller.state().rotate_horizontal, s(0.0));
    assert_eq!(controller.state().rotate_vertical, s(0.0));
}

#[test]
fn scroll_is_stored_with_its_sign_inverted() {
    let mut controller = CameraController::new(s(1.0), s(1.0));
    controller.process_scroll(s(250.0));
    assert_eq!(controller.state().scroll, s(-250.0));
    controller.process_scroll(s(-3.5));
    assert_eq!(controller.state().scroll, s(3.5));
    controller.process_scroll(s(0.0));
    assert_eq!(controller.state().scroll.to_bits(), (-0.0f32).to_bits());
    let line_delta: f32 = 2.0;
    controller.process_scroll(s(line_delta * 100.0));
    assert_eq!(f(controller.state().scroll), -200.0);
}

#[test]
fn rotation_is_zero_after_every_update() {
    for (dx, dy) in [(0.0f32, 0.0f32), (5.0, -7.0), (1.0e30, -1.0e30), (f32::NAN, f32::INFINITY)] {
        let (mut controller, mut camera, mut uniform) = start();
        controller.process_mouse_button(MouseButton::Left, ElementState::Pressed);
        controller.process_mouse(s(dx), s(dy));
        frame(&mut controller, &mut camera, &mut uniform, 0.016);
        assert_eq!(controller.state().rotate_horizontal.to_bits(), 0);
        assert_eq!(controller.state().rotate_vertical.to_bits(), 0);
        assert!(controller.state().is_dragging);
    }
}

#[test]
fn each_step_of_an_update_clears_the_rotation() {
    let (mut controller, mut camera, mut uniform) = start();
    controller.process_mouse_button(MouseButton::Left, ElementState::Pressed);
    controller.process_mouse(s(4.0), s(4.0));
    controller.update_camera_rotation(&mut camera, s(0.5), s(0.25));
    assert_eq!(controller.state().rotate_horizontal.to_bits(), 0);
    assert_eq!(controller.state().rotate_vertical.to_bits(), 0);
    controller.process_mouse(s(4.0), s(4.0));
    let position = camera.position;
    controller.update_camera(&mut camera, position, v(glam::Vec3::X), &mut uniform);
    assert_eq!(controller.state().rotate_horizontal.to_bits(), 0);
    assert_eq!(controller.state().rotate_vertical.to_bits(), 0);
}

#[test]
fn rotation_is_consumed_once() {
    let (mut controller, mut camera, mut uniform) = start();
    controller.process_mouse_button(MouseButton::Left, ElementState::Pressed);
    controller.process_mouse(s(2.0), s(0.0));
    let yaw = f(camera.yaw);
    frame(&mut controller, &mut camera, &mut uniform, 0.5);
    assert_eq!(f(camera.yaw), yaw + 2.0 * 0.6 * 0.5);
    let turned = camera.yaw;
    frame(&mut controller, &mut camera, &mut uniform, 0.5);
    assert_eq!(camera.yaw, turned);
}

#[test]
fn the_pitch_limits_are_those_of_the_camera() {
    assert_eq!(PITCH_MAX_BITS, 1.49f32.to_bits());
    assert_eq!(PITCH_MIN_BITS, (-1.49f32).to_bits());
}

#[test]
fn pitch_stays_within_its_limits() {
    let deltas = [1.0f32, -1.0, 50.0, -50.0, 1.0e6, -1.0e6, 1.0e38, -1.0e38, 0.001, -0.001, 3.0, 3.0, 3.0, -2.0];
    let (mut controller, mut camera, mut uniform) = start();
    controller.process_mouse_button(MouseButton::Left, ElementState::Pressed);
    for dy in deltas {
        for dt in [0.016f32, 0.1, 1.0, 10.0] {
            controller.process_mouse(s(0.0), s(dy));
            frame(&mut controller, &mut camera, &mut uniform, dt);
            assert!(pitch_in_range(&camera), "pitch {} after {} over {}", f(camera.pitch), dy, dt);
            assert!(camera.has_pitch_in_range());
        }
    }
}

#[test]
fn pitch_is_held_at_the_nearer_limit() {
    let mut controller = CameraController::new(s(100.0), s(0.6));
    let mut camera = Camera::new(v(glam::Vec3::ZERO), s(0.0), s(0.0));
    controller.update_camera_rotation(&mut camera, s(0.0), s(1.5));
    assert_eq!(camera.pitch, s(1.49));
    controller.update_camera_rotation(&mut camera, s(0.0), s(-1.5));
    assert_eq!(camera.pitch, s(-1.49));
    controller.update_camera_rotation(&mut camera, s(0.0), s(1.495));
    assert_eq!(camera.pitch, s(1.49));
    controller.update_camera_rotation(&mut camera, s(0.0), s(f32::INFINITY));
    assert_eq!(camera.pitch, s(1.49));
    controller.update_camera_rotation(&mut camera, s(0.0), s(f32::NEG_INFINITY));
    assert_eq!(camera.pitch, s(-1.49));
    controller.update_camera_rotation(&mut camera, s(0.0), s(1.49));
    assert_eq!(camera.pitch, s(1.49));
    controller.update_camera_rotation(&mut camera, s(0.0), s(-0.75));
    assert_eq!(camera.pitch, s(-0.75));
}

#[test]
fn yaw_is_not_limited() {
    let mut controller = CameraController::new(s(100.0), s(0.6));
    let mut camera = Camera::new(v(glam::Vec3::ZERO), s(0.0), s(0.0));
    controller.update_camera_rotation(&mut camera, s(1234.5), s(0.0));
    assert_eq!(camera.yaw, s(1234.5));
    controller.update_camera_rotation(&mut camera, s(-9.0e9), s(0.0));
    assert_eq!(camera.yaw, s(-9.0e9));
}

#[test]
fn turn_to_agrees_with_the_controller() {
    let mut a = Camera::new(v(glam::Vec3::ONE), s(0.0), s(0.0));
    let mut b = a;
    let mut controller = CameraController::new(s(100.0), s(0.6));
    a.turn_to(s(2.0), s(-9.0));
    controller.update_camera_rotation(&mut b, s(2.0), s(-9.0));
    assert_eq!(a, b);
    assert_eq!(a.position, v(glam::Vec3::ONE));
    assert_eq!(a.pitch, s(-1.49));
}

#[test]
fn forward_and_right_are_unit_vectors() {
    let mut yaw: f32 = -7.0;
    while yaw <= 7.0 {
        let mut pitch: f32 = -1.49;
        while pitch <= 1.49 {
            let camera = Camera::new(v(glam::Vec3::ZERO), s(yaw), s(pitch));
            assert!(camera.has_pitch_in_range());
            assert!((forward_of(&camera).length() - 1.0).abs() < 1.0e-5);
            assert!((right_of(&camera).length() - 1.0).abs() < 1.0e-5);
            pitch += 0.149;
        }
        yaw += 0.35;
    }
}

#[test]
fn no_time_means_no_movement() {
    let keys = [KeyCode::KeyW, KeyCode::KeyS, KeyCode::KeyA, KeyCode::KeyD, KeyCode::KeyQ, KeyCode::KeyE];
    for mask in 0..64u32 {
        let (mut controller, mut camera, mut uniform) = start();
        camera.position = v(glam::Vec3::new(3.0, -4.0, 5.5));
        for (i, key) in keys.iter().enumerate() {
            if mask & (1 << i) != 0 {
                controller.process_keyboard(*key, ElementState::Pressed);
            }
        }
        let before = g(camera.position);
        frame(&mut controller, &mut camera, &mut uniform, 0.0);
        assert_eq!(g(camera.position), before);
        assert_eq!(g(uniform.position), before);
    }
}

#[test]
fn the_camera_starts_looking_at_its_target() {
    let (_, camera, uniform) = start();
    assert_eq!(g(camera.position), glam::Vec3::new(0.0, 0.0, -80.0));
    assert_eq!(g(Scene::initial_target()), glam::Vec3::new(0.0, 10.0, 9.5));
    let length = (10.0f64 * 10.0 + 89.5 * 89.5).sqrt();
    assert!((length - 90.056926).abs() < 1.0e-5);
    let forward_y = 10.0 / length;
    let forward_z = 89.5 / length;
    assert!((forward_y - 0.111041).abs() < 1.0e-6);
    assert!((forward_z - 0.993816).abs() < 1.0e-6);
    assert!((f(camera.yaw) as f64 - std::f64::consts::FRAC_PI_2).abs() < 1.0e-6);
    assert!((f(camera.yaw) - 1.5707964).abs() < 1.0e-6);
    assert!((f(camera.pitch) as f64 - forward_y.asin()).abs() < 1.0e-6);
    assert!((f(camera.pitch) - 0.1112703).abs() < 1.0e-6);
    assert!(camera.has_pitch_in_range());
    assert!((g(uniform.forward) - glam::Vec3::new(0.0, forward_y as f32, forward_z as f32)).length() < 1.0e-6);
    assert!((forward_of(&camera) - g(uniform.forward)).length() < 1.0e-6);
}

#[test]
fn a_camera_keeps_what_it_is_given() {
    let camera = Camera::new(v(glam::Vec3::new(1.0, 2.0, 3.0)), s(0.5), s(1.55));
    assert_eq!(camera.position, v(glam::Vec3::new(1.0, 2.0, 3.0)));
    assert_eq!(camera.yaw, s(0.5));
    assert_eq!(camera.pitch, s(1.55));
    assert!(!camera.has_pitch_in_range());
    assert!(Camera::new(camera.position, s(0.0), s(1.49)).has_pitch_in_range());
    assert!(Camera::new(camera.position, s(0.0), s(-1.49)).has_pitch_in_range());
    assert!(!Camera::new(camera.position, s(0.0), s(f32::NAN)).has_pitch_in_range());
}

#[test]
fn holding_forward_moves_along_the_view_direction() {
    let (mut controller, mut camera, mut uniform) = start();
    assert!(controller.process_keyboard(KeyCode::KeyW, ElementState::Pressed));
    let before = g(camera.position);
    let forward = forward_of(&camera);
    frame(&mut controller, &mut camera, &mut uniform, 0.1);
    let moved = g(camera.position) - before;
    assert!((moved - forward * 10.0).length() < 1.0e-4, "{:?}", moved);
    assert!((moved.length() - 10.0).abs() < 1.0e-4);
    assert_eq!(uniform.position, camera.position);
    assert_eq!(g(uniform.forward), forward);
}

#[test]
fn opposite_keys_cancel() {
    let (mut controller, mut camera, mut uniform) = start();
    controller.process_keyboard(KeyCode::KeyW, ElementState::Pressed);
    controller.process_keyboard(KeyCode::KeyS, ElementState::Pressed);
    controller.process_keyboard(KeyCode::KeyA, ElementState::Pressed);
    controller.process_keyboard(KeyCode::KeyD, ElementState::Pressed);
    let before = g(camera.position);
    frame(&mut controller, &mut camera, &mut uniform, 0.25);
    assert_eq!(g(camera.position), before);
}

#[test]
fn up_and_down_move_along_the_vertical() {
    let (mut controller, mut camera, mut uniform) = start();
    controller.process_keyboard(KeyCode::KeyQ, ElementState::Pressed);
    let before = g(camera.position);
    frame(&mut controller, &mut camera, &mut uniform, 0.5);
    assert_eq!(g(camera.position), before + glam::Vec3::new(0.0, 50.0, 0.0));
    controller.process_keyboard(KeyCode::KeyQ, ElementState::Released);
    controller.process_keyboard(KeyCode::KeyE, ElementState::Pressed);
    frame(&mut controller, &mut camera, &mut uniform, 0.5);
    assert_eq!(g(camera.position), before);
}

#[test]
fn an_update_writes_position_and_forward_only() {
    let (mut controller, mut camera, mut uniform) = start();
    let before = uniform;
    let yaw = camera.yaw;
    let pitch = camera.pitch;
    let position = v(glam::Vec3::new(7.0, 8.0, 9.0));
    let forward = v(glam::Vec3::new(0.0, 0.0, 1.0));
    controller.update_camera(&mut camera, position, forward, &mut uniform);
    assert_eq!(camera.position, position);
    assert_eq!(camera.yaw, yaw);
    assert_eq!(camera.pitch, pitch);
    assert_eq!(uniform.position, position);
    assert_eq!(uniform.forward, forward);
    assert_eq!(uniform.up, before.up);
    assert_eq!(uniform.fov_y, before.fov_y);
    assert_eq!(uniform.aspect_ratio, before.aspect_ratio);
    assert_eq!(uniform._padding2, before._padding2);
}

#[test]
fn the_scene_hands_the_update_to_the_controller() {
    let (mut controller, camera, mut uniform) = start();
    let mut scene = Scene { camera };
    controller.process_mouse_button(MouseButton::Left, ElementState::Pressed);
    controller.process_mouse(s(1.0), s(1.0));
    let position = v(glam::Vec3::new(-1.0, -2.0, -3.0));
    let forward = v(glam::Vec3::new(1.0, 0.0, 0.0));
    scene.compile_camera(&mut controller, position, forward, &mut uniform);
    assert_eq!(scene.camera.position, position);
    assert_eq!(scene.camera.yaw, camera.yaw);
    assert_eq!(scene.camera.pitch, camera.pitch);
    assert_eq!(uniform.position, position);
    assert_eq!(uniform.forward, forward);
    assert_eq!(controller.state().rotate_horizontal, s(0.0));
    let kept = scene;
    scene.update();
    Scene::compile_objects();
    assert_eq!(scene, kept);
}

#[test]
fn a_frame_ends_with_both_uploads() {
    let (mut controller, camera, _) = start();
    let mut scene = Scene { camera };
    let forward = forward_of(&camera);
    let mut compute = ComputeState::new(v(forward), s(0.5), EnvDimensions { width: 2, height: 2 });
    let position = v(glam::Vec3::new(1.5, 0.0, -70.0));
    let upload = compute.update(&mut controller, &mut scene, position, v(forward), 0xA1B2_C3D4);
    assert_eq!(upload.camera, compute.camera_uniform.to_bytes());
    assert_eq!(upload.camera.len(), 48);
    assert_eq!(upload.seed, vec![0xD4u8, 0xC3, 0xB2, 0xA1]);
    assert_eq!(compute.camera_uniform.position, position);
    assert_eq!(compute.camera_uniform.forward, v(forward));
    assert_eq!(compute.camera_uniform.aspect_ratio, s(0.5));
    assert_eq!(scene.camera.position, position);
    assert_eq!(&upload.camera[0..4], &1.5f32.to_le_bytes());
    assert_eq!(&upload.camera[8..12], &(-70.0f32).to_le_bytes());
}
