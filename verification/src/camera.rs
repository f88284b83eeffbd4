//! The orthographic camera over the card table and the input-driven
//! controller that moves it.
//!
//! All world lengths (eye position, zoom, clip planes, speed) are held in
//! tenths of a world unit, so per-frame displacements stay exact integers.
//! The view-projection matrix itself is floating-point work and is computed
//! outside this crate from the fields held here.

use vstd::prelude::*;

use crate::event::{KeyCode, WindowEvent};

verus! {

/// Default zoom: the viewport spans two world units vertically.
pub const DEFAULT_ZOOM: u32 = 20;

/// Default near clip plane, a tenth of a world unit before the camera.
pub const DEFAULT_ZNEAR: u32 = 1;

/// Default far clip plane, a hundred world units before the camera.
pub const DEFAULT_ZFAR: u32 = 1000;

/// The camera: an eye over the table plane, the viewport it projects to,
/// and the orthographic volume around it.  Lengths in tenths of a world
/// unit; the viewport in physical pixels.
#[derive(Clone, Copy, Debug, PartialEq, Eq, Structural)]
pub struct Camera {
    pub eye_x: i32,
    pub eye_y: i32,
    pub viewport_width: u32,
    pub viewport_height: u32,
    pub zoom: u32,
    pub znear: u32,
    pub zfar: u32,
}

impl Camera {
    /// The camera's invariant: a proper clip range, a positive zoom, and a
    /// viewport with area.
    pub open spec fn wf(self) -> bool {
        &&& 0 < self.znear < self.zfar
        &&& self.zoom > 0
        &&& self.viewport_width > 0
        &&& self.viewport_height > 0
    }

    /// A camera at the origin over the given viewport, with the default
    /// zoom and clip planes.
    pub fn new(viewport_width: u32, viewport_height: u32) -> (c: Camera)
        requires
            viewport_width > 0,
            viewport_height > 0,
        ensures
            c == initial_camera(viewport_width, viewport_height),
            c.wf(),
    {
        Camera {
            eye_x: 0,
            eye_y: 0,
            viewport_width,
            viewport_height,
            zoom: DEFAULT_ZOOM,
            znear: DEFAULT_ZNEAR,
            zfar: DEFAULT_ZFAR,
        }
    }
}

/// The camera the renderer starts with: eye at the origin over the given
/// viewport, default zoom and clip planes.
pub open spec fn initial_camera(viewport_width: u32, viewport_height: u32) -> Camera {
    Camera {
        eye_x: 0,
        eye_y: 0,
        viewport_width,
        viewport_height,
        zoom: DEFAULT_ZOOM,
        znear: DEFAULT_ZNEAR,
        zfar: DEFAULT_ZFAR,
    }
}

/// Whether a key belongs to the forward (up) group.
pub open spec fn is_forward_key(k: KeyCode) -> bool {
    k is W || k is Up
}

/// Whether a key belongs to the backward (down) group.
pub open spec fn is_backward_key(k: KeyCode) -> bool {
    k is S || k is Down
}

/// Whether a key belongs to the leftward group.
pub open spec fn is_left_key(k: KeyCode) -> bool {
    k is A || k is Left
}

/// Whether a key belongs to the rightward group.
pub open spec fn is_right_key(k: KeyCode) -> bool {
    k is D || k is Right
}

/// Whether a key moves the camera at all.
pub open spec fn is_movement_key(k: KeyCode) -> bool {
    is_forward_key(k) || is_backward_key(k) || is_left_key(k) || is_right_key(k)
}

/// The camera controller: a per-frame speed (tenths of a world unit) and
/// the held-down state of the four movement directions.
#[derive(Clone, Copy, Debug, PartialEq, Eq, Structural)]
pub struct CameraController {
    pub speed: i32,
    pub is_forward_pressed: bool,
    pub is_backward_pressed: bool,
    pub is_left_pressed: bool,
    pub is_right_pressed: bool,
}

/// The controller state after one window event: a key event of a movement
/// group sets that group's flag to the key's new state; everything else
/// leaves the controller alone.
pub open spec fn controller_after(c: CameraController, e: WindowEvent) -> CameraController {
    match e {
        WindowEvent::KeyboardInput { key, pressed } => CameraController {
            is_forward_pressed: if is_forward_key(key) {
                pressed
            } else {
                c.is_forward_pressed
            },
            is_backward_pressed: if is_backward_key(key) {
                pressed
            } else {
                c.is_backward_pressed
            },
            is_left_pressed: if is_left_key(key) {
                pressed
            } else {
                c.is_left_pressed
            },
            is_right_pressed: if is_right_key(key) {
                pressed
            } else {
                c.is_right_pressed
            },
            ..c
        },
        _ => c,
    }
}

/// Whether the controller consumes an event: exactly the key events of the
/// movement groups.
pub open spec fn event_consumed(e: WindowEvent) -> bool {
    e matches WindowEvent::KeyboardInput { key, .. } && is_movement_key(key)
}

/// Net horizontal displacement of one update, in tenths of a world unit:
/// the opposing flags add and subtract independently.
pub open spec fn eye_dx(c: CameraController) -> int {
    (if c.is_right_pressed {
        c.speed as int
    } else {
        0
    }) - (if c.is_left_pressed {
        c.speed as int
    } else {
        0
    })
}

/// Net vertical displacement of one update, in tenths of a world unit.
pub open spec fn eye_dy(c: CameraController) -> int {
    (if c.is_forward_pressed {
        c.speed as int
    } else {
        0
    }) - (if c.is_backward_pressed {
        c.speed as int
    } else {
        0
    })
}

impl CameraController {
    /// A controller with the given speed and no key held.
    pub fn new(speed: i32) -> (c: CameraController)
        ensures
            c == (CameraController {
                speed,
                is_forward_pressed: false,
                is_backward_pressed: false,
                is_left_pressed: false,
                is_right_pressed: false,
            }),
    {
        CameraController {
            speed,
            is_forward_pressed: false,
            is_backward_pressed: false,
            is_left_pressed: false,
            is_right_pressed: false,
        }
    }

    /// Feed one window event into the controller.  Returns whether the
    /// event was consumed here.
    pub fn process_events(&mut self, event: &WindowEvent) -> (consumed: bool)
        ensures
            *final(self) == controller_after(*old(self), *event),
            consumed == event_consumed(*event),
    {
        match event {
            WindowEvent::KeyboardInput { key, pressed } => {
                let is_pressed = *pressed;
                match key {
                    KeyCode::W | KeyCode::Up => {
                        self.is_forward_pressed = is_pressed;
                        true
                    },
                    KeyCode::A | KeyCode::Left => {
                        self.is_left_pressed = is_pressed;
                        true
                    },
                    KeyCode::S | KeyCode::Down => {
                        self.is_backward_pressed = is_pressed;
                        true
                    },
                    KeyCode::D | KeyCode::Right => {
                        self.is_right_pressed = is_pressed;
                        true
                    },
                    _ => false,
                }
            },
            _ => false,
        }
    }

    /// Apply one frame of movement to the camera: each held direction
    /// shifts the eye by the speed along its axis, opposing directions
    /// cancelling.  Everything else about the camera stays as it was.
    pub fn update_camera(&self, camera: &mut Camera)
        requires
            i32::MIN <= old(camera).eye_x - self.speed <= i32::MAX,
            i32::MIN <= old(camera).eye_x + self.speed <= i32::MAX,
            i32::MIN <= old(camera).eye_y - self.speed <= i32::MAX,
            i32::MIN <= old(camera).eye_y + self.speed <= i32::MAX,
        ensures
            *final(camera) == (Camera {
                eye_x: (old(camera).eye_x + eye_dx(*self)) as i32,
                eye_y: (old(camera).eye_y + eye_dy(*self)) as i32,
                ..*old(camera)
            }),
            final(camera).eye_x == old(camera).eye_x + eye_dx(*self),
            final(camera).eye_y == old(camera).eye_y + eye_dy(*self),
    {
        if self.is_forward_pressed {
            camera.eye_y = camera.eye_y + self.speed;
        }
        if self.is_backward_pressed {
            camera.eye_y = camera.eye_y - self.speed;
        }
        if self.is_right_pressed {
            camera.eye_x = camera.eye_x + self.speed;
        }
        if self.is_left_pressed {
            camera.eye_x = camera.eye_x - self.speed;
        }
    }
}

/// One of the four movement directions.
#[derive(Clone, Copy, Debug, PartialEq, Eq, Structural)]
pub enum MoveDir {
    Forward,
    Backward,
    Left,
    Right,
}

/// Whether a key belongs to a direction's group.
pub open spec fn in_group(k: KeyCode, d: MoveDir) -> bool {
    match d {
        MoveDir::Forward => is_forward_key(k),
        MoveDir::Backward => is_backward_key(k),
        MoveDir::Left => is_left_key(k),
        MoveDir::Right => is_right_key(k),
    }
}

/// The controller's flag for a direction.
pub open spec fn flag(c: CameraController, d: MoveDir) -> bool {
    match d {
        MoveDir::Forward => c.is_forward_pressed,
        MoveDir::Backward => c.is_backward_pressed,
        MoveDir::Left => c.is_left_pressed,
        MoveDir::Right => c.is_right_pressed,
    }
}

/// The controller state after a whole sequence of window events, fed in
/// order.
pub open spec fn controller_after_all(c: CameraController, events: Seq<WindowEvent>) -> CameraController
    decreases events.len(),
{
    if events.len() == 0 {
        c
    } else {
        controller_after(controller_after_all(c, events.drop_last()), events.last())
    }
}

/// The net press state of a direction over a sequence of events: the
/// `pressed` value of the last key event in the direction's group, or the
/// starting flag if no event touched the group.
pub open spec fn net_press(init: bool, events: Seq<WindowEvent>, d: MoveDir) -> bool
    decreases events.len(),
{
    if events.len() == 0 {
        init
    } else {
        match events.last() {
            WindowEvent::KeyboardInput { key, pressed } => if in_group(key, d) {
                pressed
            } else {
                net_press(init, events.drop_last(), d)
            },
            _ => net_press(init, events.drop_last(), d),
        }
    }
}

/// After any sequence of key press and release events, each directional
/// flag equals exactly the net press state of its key group.  In
/// particular a repeated press followed by a release leaves the same flag
/// as the release alone.
pub proof fn lemma_flags_are_net_press_state(c: CameraController, events: Seq<WindowEvent>)
    ensures
        forall|d: MoveDir|
            flag(controller_after_all(c, events), d) == #[trigger] net_press(flag(c, d), events, d),
    decreases events.len(),
{
    if events.len() > 0 {
        lemma_flags_are_net_press_state(c, events.drop_last());
        let prev = controller_after_all(c, events.drop_last());
        assert forall|d: MoveDir|
            flag(controller_after_all(c, events), d) == #[trigger] net_press(
                flag(c, d),
                events,
                d,
            ) by {
            assert(net_press(flag(c, d), events.drop_last(), d) == flag(prev, d));
            match d {
                MoveDir::Forward => {},
                MoveDir::Backward => {},
                MoveDir::Left => {},
                MoveDir::Right => {},
            }
        }
    }
}

/// With only the forward direction held, one update moves the eye up by
/// exactly the speed and not sideways; with forward and backward both held,
/// the net vertical displacement is zero.
pub proof fn lemma_update_displacement(c: CameraController)
    ensures
        c.is_forward_pressed && !c.is_backward_pressed ==> eye_dy(c) == c.speed,
        c.is_forward_pressed && c.is_backward_pressed ==> eye_dy(c) == 0,
        !c.is_left_pressed && !c.is_right_pressed ==> eye_dx(c) == 0,
{
}

} // verus!
