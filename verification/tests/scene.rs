use cards::camera::{Camera, CameraController};
use cards::event::{Event, EventDirective, KeyCode, WindowEvent};
use cards::state::{
    choose_surface_format, handle_event, handle_window_event, surface_error_action, FrameAction,
    Scene, SurfaceError, CAMERA_SPEED,
};

fn press(key: KeyCode) -> WindowEvent {
    WindowEvent::KeyboardInput { key, pressed: true }
}

fn release(key: KeyCode) -> WindowEvent {
    WindowEvent::KeyboardInput { key, pressed: false }
}

#[test]
fn new_controller_has_no_key_held() {
    let c = CameraController::new(7);
    assert_eq!(c.speed, 7);
    assert!(!c.is_forward_pressed);
    assert!(!c.is_backward_pressed);
    assert!(!c.is_left_pressed);
    assert!(!c.is_right_pressed);
}

#[test]
fn press_and_release_toggle_the_flag() {
    let mut c = CameraController::new(20);
    assert!(c.process_events(&press(KeyCode::W)));
    assert!(c.is_forward_pressed);
    assert!(c.process_events(&release(KeyCode::W)));
    assert!(!c.is_forward_pressed);
}

#[test]
fn both_keys_of_a_group_set_the_same_flag() {
    let mut c = CameraController::new(20);
    assert!(c.process_events(&press(KeyCode::Up)));
    assert!(c.is_forward_pressed);
    let mut d = CameraController::new(20);
    assert!(d.process_events(&press(KeyCode::Left)));
    assert!(d.is_left_pressed);
    assert!(d.process_events(&press(KeyCode::Down)));
    assert!(d.is_backward_pressed);
    assert!(d.process_events(&press(KeyCode::D)));
    assert!(d.is_right_pressed);
}

#[test]
fn unrelated_events_are_not_consumed() {
    let mut c = CameraController::new(20);
    assert!(!c.process_events(&press(KeyCode::Escape)));
    assert!(!c.process_events(&press(KeyCode::Other)));
    assert!(!c.process_events(&WindowEvent::CloseRequested));
    assert!(!c.process_events(&WindowEvent::Other));
    assert_eq!(c, CameraController::new(20));
}

#[test]
fn repeated_press_then_release_equals_the_release_alone() {
    let mut twice = CameraController::new(20);
    twice.process_events(&press(KeyCode::W));
    twice.process_events(&press(KeyCode::W));
    twice.process_events(&release(KeyCode::W));

    let mut once = CameraController::new(20);
    once.process_events(&release(KeyCode::W));

    assert_eq!(twice, once);
}

#[test]
fn forward_alone_moves_the_eye_up_by_the_speed() {
    let mut camera = Camera::new(800, 600);
    let mut c = CameraController::new(20);
    c.process_events(&press(KeyCode::W));
    c.update_camera(&mut camera);
    assert_eq!(camera.eye_y, 20);
    assert_eq!(camera.eye_x, 0);
    c.update_camera(&mut camera);
    assert_eq!(camera.eye_y, 40);
}

#[test]
fn opposing_directions_cancel() {
    let mut camera = Camera::new(800, 600);
    let mut c = CameraController::new(20);
    c.process_events(&press(KeyCode::W));
    c.process_events(&press(KeyCode::S));
    c.process_events(&press(KeyCode::A));
    c.process_events(&press(KeyCode::D));
    c.update_camera(&mut camera);
    assert_eq!((camera.eye_x, camera.eye_y), (0, 0));
}

#[test]
fn update_keeps_the_rest_of_the_camera() {
    let mut camera = Camera::new(640, 480);
    let before = camera;
    let mut c = CameraController::new(20);
    c.process_events(&press(KeyCode::D));
    c.update_camera(&mut camera);
    assert_eq!(camera.eye_x, 20);
    assert_eq!(camera.viewport_width, before.viewport_width);
    assert_eq!(camera.viewport_height, before.viewport_height);
    assert_eq!(camera.zoom, before.zoom);
    assert_eq!(camera.znear, before.znear);
    assert_eq!(camera.zfar, before.zfar);
}

#[test]
fn new_scene_holds_the_default_table() {
    let s = Scene::new(800, 600);
    assert_eq!(s.width, 800);
    assert_eq!(s.height, 600);
    assert_eq!(s.camera.viewport_width, 800);
    assert_eq!(s.camera.viewport_height, 600);
    assert_eq!((s.camera.eye_x, s.camera.eye_y), (0, 0));
    assert!(s.camera.znear < s.camera.zfar);
    assert_eq!(s.camera_controller.speed, CAMERA_SPEED);
    assert_eq!(s.cards.len(), 52);
}

#[test]
fn resize_with_area_updates_surface_and_camera() {
    let mut s = Scene::new(800, 600);
    assert!(s.resize(1024, 768));
    assert_eq!((s.width, s.height), (1024, 768));
    assert_eq!((s.camera.viewport_width, s.camera.viewport_height), (1024, 768));
}

#[test]
fn resize_to_zero_changes_nothing() {
    let mut s = Scene::new(800, 600);
    let camera_before = s.camera;
    assert!(!s.resize(0, 768));
    assert!(!s.resize(1024, 0));
    assert!(!s.resize(0, 0));
    assert_eq!((s.width, s.height), (800, 600));
    assert_eq!(s.camera, camera_before);
}

#[test]
fn scene_update_applies_pending_input() {
    let mut s = Scene::new(800, 600);
    s.input(&press(KeyCode::W));
    s.input(&press(KeyCode::D));
    s.update();
    assert_eq!((s.camera.eye_x, s.camera.eye_y), (20, 20));
}

#[test]
fn lost_surface_reconfigures_and_out_of_memory_exits() {
    assert_eq!(surface_error_action(&SurfaceError::Lost), FrameAction::Reconfigure);
    assert_eq!(surface_error_action(&SurfaceError::OutOfMemory), FrameAction::Exit);
    assert_eq!(surface_error_action(&SurfaceError::Timeout), FrameAction::Skip);
    assert_eq!(surface_error_action(&SurfaceError::Outdated), FrameAction::Skip);
}

#[test]
fn first_srgb_format_wins() {
    assert_eq!(choose_surface_format(&vec![false, true, true]), 1);
    assert_eq!(choose_surface_format(&vec![true, false]), 0);
    assert_eq!(choose_surface_format(&vec![false, false, false]), 0);
    assert_eq!(choose_surface_format(&vec![false]), 0);
}

#[test]
fn close_request_exits() {
    let mut s = Scene::new(800, 600);
    let d = handle_event(
        &mut s,
        1,
        &Event::Window { window_id: 1, event: WindowEvent::CloseRequested },
    );
    assert_eq!(d, EventDirective::Exit);
}

#[test]
fn escape_press_exits_but_release_does_not() {
    let mut s = Scene::new(800, 600);
    let d = handle_event(&mut s, 1, &Event::Window { window_id: 1, event: press(KeyCode::Escape) });
    assert_eq!(d, EventDirective::Exit);
    let d = handle_event(
        &mut s,
        1,
        &Event::Window { window_id: 1, event: release(KeyCode::Escape) },
    );
    assert_eq!(d, EventDirective::Continue);
}

#[test]
fn movement_keys_are_consumed_by_the_controller() {
    let mut s = Scene::new(800, 600);
    let d = handle_event(&mut s, 1, &Event::Window { window_id: 1, event: press(KeyCode::W) });
    assert_eq!(d, EventDirective::Continue);
    assert!(s.camera_controller.is_forward_pressed);
}

#[test]
fn events_of_other_windows_are_ignored() {
    let mut s = Scene::new(800, 600);
    let d = handle_event(&mut s, 1, &Event::Window { window_id: 2, event: press(KeyCode::W) });
    assert_eq!(d, EventDirective::Continue);
    assert!(!s.camera_controller.is_forward_pressed);
    let d = handle_event(&mut s, 1, &Event::RedrawRequested { window_id: 2 });
    assert_eq!(d, EventDirective::Continue);
}

#[test]
fn redraw_and_cleared_events_drive_the_frame() {
    let mut s = Scene::new(800, 600);
    assert_eq!(handle_event(&mut s, 1, &Event::RedrawRequested { window_id: 1 }), EventDirective::Redraw);
    assert_eq!(handle_event(&mut s, 1, &Event::MainEventsCleared), EventDirective::RequestRedraw);
    assert_eq!(handle_event(&mut s, 1, &Event::Other), EventDirective::Continue);
}

#[test]
fn resize_event_reconfigures_the_surface() {
    let mut s = Scene::new(800, 600);
    let d = handle_event(
        &mut s,
        1,
        &Event::Window { window_id: 1, event: WindowEvent::Resized { width: 1920, height: 1080 } },
    );
    assert_eq!(d, EventDirective::Reconfigure);
    assert_eq!((s.width, s.height), (1920, 1080));

    let d = handle_event(
        &mut s,
        1,
        &Event::Window {
            window_id: 1,
            event: WindowEvent::ScaleFactorChanged { width: 960, height: 540 },
        },
    );
    assert_eq!(d, EventDirective::Reconfigure);
    assert_eq!((s.width, s.height), (960, 540));
}

#[test]
fn minimised_resize_event_is_a_no_op() {
    let mut s = Scene::new(800, 600);
    let d = handle_window_event(&mut s, &WindowEvent::Resized { width: 0, height: 0 });
    assert_eq!(d, EventDirective::Continue);
    assert_eq!((s.width, s.height), (800, 600));
    assert_eq!((s.camera.viewport_width, s.camera.viewport_height), (800, 600));
}
