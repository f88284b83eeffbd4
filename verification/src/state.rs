//! The scene the render orchestrator drives: camera, controller, the card
//! list, and the decisions of the frame loop — surface format choice,
//! resizing, input routing, and the reaction to surface errors.
//!
//! The GPU handles themselves (surface, device, buffers, pipeline) live
//! outside this crate; their owner embeds a [`Scene`] and performs the
//! directives these functions hand back.

use vstd::prelude::*;

use crate::camera::{
    controller_after, event_consumed, eye_dx, eye_dy, initial_camera, Camera, CameraController,
};
use crate::card::{default_grid, grid_card, Card};
use crate::event::{Event, EventDirective, WindowEvent};

verus! {

/// Camera speed: two world units per frame, in tenths.
pub const CAMERA_SPEED: i32 = 20;

/// The renderer's model state: everything the frame loop decides with,
/// free of GPU handles.
pub struct Scene {
    pub camera: Camera,
    pub camera_controller: CameraController,
    pub cards: Vec<Card>,
    pub width: u32,
    pub height: u32,
}

/// The scene after a resize request: a size with area replaces the surface
/// size and the camera's viewport; a zero dimension (a minimised window)
/// changes nothing.
pub open spec fn scene_after_resize(s: Scene, new_width: u32, new_height: u32) -> Scene {
    if new_width > 0 && new_height > 0 {
        Scene {
            width: new_width,
            height: new_height,
            camera: Camera {
                viewport_width: new_width,
                viewport_height: new_height,
                ..s.camera
            },
            ..s
        }
    } else {
        s
    }
}

impl Scene {
    /// The scene's invariant: a well-formed camera whose viewport is the
    /// surface size.
    pub open spec fn wf(self) -> bool {
        &&& self.camera.wf()
        &&& self.camera.viewport_width == self.width
        &&& self.camera.viewport_height == self.height
    }

    /// Set up the scene for a viewport of the given size: the default
    /// camera and controller, and the full 52-card table.
    pub fn new(width: u32, height: u32) -> (s: Scene)
        requires
            width > 0,
            height > 0,
        ensures
            s.camera == initial_camera(width, height),
            s.camera_controller == (CameraController {
                speed: CAMERA_SPEED,
                is_forward_pressed: false,
                is_backward_pressed: false,
                is_left_pressed: false,
                is_right_pressed: false,
            }),
            s.cards@.len() == 52,
            forall|i: int| 0 <= i < 52 ==> #[trigger] s.cards@[i] == grid_card(i),
            s.width == width,
            s.height == height,
            s.wf(),
    {
        Scene {
            camera: Camera::new(width, height),
            camera_controller: CameraController::new(CAMERA_SPEED),
            cards: default_grid(),
            width,
            height,
        }
    }

    /// Feed one window event to the camera controller.  Returns whether
    /// the controller consumed it; nothing else of the scene changes.
    pub fn input(&mut self, event: &WindowEvent) -> (consumed: bool)
        ensures
            *final(self) == (Scene {
                camera_controller: controller_after(old(self).camera_controller, *event),
                ..*old(self)
            }),
            consumed == event_consumed(*event),
    {
        self.camera_controller.process_events(event)
    }

    /// Apply one frame of pending input to the camera.
    pub fn update(&mut self)
        requires
            i32::MIN <= old(self).camera.eye_x - old(self).camera_controller.speed <= i32::MAX,
            i32::MIN <= old(self).camera.eye_x + old(self).camera_controller.speed <= i32::MAX,
            i32::MIN <= old(self).camera.eye_y - old(self).camera_controller.speed <= i32::MAX,
            i32::MIN <= old(self).camera.eye_y + old(self).camera_controller.speed <= i32::MAX,
        ensures
            *final(self) == (Scene {
                camera: Camera {
                    eye_x: (old(self).camera.eye_x + eye_dx(old(self).camera_controller)) as i32,
                    eye_y: (old(self).camera.eye_y + eye_dy(old(self).camera_controller)) as i32,
                    ..old(self).camera
                },
                ..*old(self)
            }),
    {
        let controller = self.camera_controller;
        controller.update_camera(&mut self.camera);
    }

    /// Take a reported size change.  A size with area is adopted by the
    /// surface configuration and the camera; a zero dimension is a no-op.
    /// Returns whether the surface must be reconfigured.
    pub fn resize(&mut self, new_width: u32, new_height: u32) -> (changed: bool)
        ensures
            *final(self) == scene_after_resize(*old(self), new_width, new_height),
            changed == (new_width > 0 && new_height > 0),
            old(self).wf() ==> final(self).wf(),
    {
        if new_width > 0 && new_height > 0 {
            self.width = new_width;
            self.height = new_height;
            self.camera.viewport_width = new_width;
            self.camera.viewport_height = new_height;
            true
        } else {
            false
        }
    }
}

/// Pick the surface pixel format from the backend's offered list, given as
/// each format's sRGB flag in the backend's order of preference: the first
/// sRGB-encoded format, or the first offered if none is.  Returns the
/// index of the chosen format.
pub fn choose_surface_format(srgb: &Vec<bool>) -> (chosen: usize)
    requires
        srgb@.len() > 0,
    ensures
        chosen < srgb@.len(),
        (exists|i: int| 0 <= i < srgb@.len() && srgb@[i]) ==> srgb@[chosen as int]
            && (forall|j: int| 0 <= j < chosen ==> !srgb@[j]),
        !(exists|i: int| 0 <= i < srgb@.len() && srgb@[i]) ==> chosen == 0,
{
    let mut i: usize = 0;
    while i < srgb.len()
        invariant
            i <= srgb@.len(),
            forall|j: int| 0 <= j < i ==> !srgb@[j],
        decreases srgb@.len() - i,
    {
        if srgb[i] {
            return i;
        }
        i = i + 1;
    }
    0
}

/// The ways acquiring the next surface frame can fail, as the graphics
/// backend reports them.
#[derive(Clone, Copy, Debug, PartialEq, Eq, Structural)]
pub enum SurfaceError {
    /// The frame took too long to acquire.
    Timeout,
    /// The surface no longer matches the window and frames cannot be
    /// presented to it.
    Outdated,
    /// The surface was lost and must be rebuilt.
    Lost,
    /// No memory was left for the frame.
    OutOfMemory,
}

/// What the frame loop does about a failed frame.
#[derive(Clone, Copy, Debug, PartialEq, Eq, Structural)]
pub enum FrameAction {
    /// Reconfigure the surface with the current size and retry on the
    /// next frame.
    Reconfigure,
    /// The failure is fatal: end the loop.
    Exit,
    /// Log the failure and drop this frame; the loop goes on.
    Skip,
}

/// The frame loop's policy for a failed frame: a lost surface is rebuilt,
/// out-of-memory is fatal, anything else drops the frame.
pub open spec fn spec_surface_error_action(e: SurfaceError) -> FrameAction {
    match e {
        SurfaceError::Lost => FrameAction::Reconfigure,
        SurfaceError::OutOfMemory => FrameAction::Exit,
        _ => FrameAction::Skip,
    }
}

/// Decide what to do about a failed frame.
pub fn surface_error_action(error: &SurfaceError) -> (action: FrameAction)
    ensures
        action == spec_surface_error_action(*error),
{
    match error {
        SurfaceError::Lost => FrameAction::Reconfigure,
        SurfaceError::OutOfMemory => FrameAction::Exit,
        _ => FrameAction::Skip,
    }
}

/// Whether a window event asks the application to end: a close request,
/// or the escape key going down.
pub open spec fn is_exit_event(e: WindowEvent) -> bool {
    ||| e is CloseRequested
    ||| (e matches WindowEvent::KeyboardInput { key, pressed } && key is Escape && pressed)
}

/// The directive a window event produces when the controller did not
/// consume it: exit events end the loop, a resize with area makes the
/// surface reconfigure, everything else passes.
pub open spec fn window_event_directive(e: WindowEvent) -> EventDirective {
    if is_exit_event(e) {
        EventDirective::Exit
    } else {
        match e {
            WindowEvent::Resized { width, height } => if width > 0 && height > 0 {
                EventDirective::Reconfigure
            } else {
                EventDirective::Continue
            },
            WindowEvent::ScaleFactorChanged { width, height } => if width > 0 && height > 0 {
                EventDirective::Reconfigure
            } else {
                EventDirective::Continue
            },
            _ => EventDirective::Continue,
        }
    }
}

/// The scene after a window event that the controller did not consume:
/// only size changes touch it.
pub open spec fn scene_after_window_event(s: Scene, e: WindowEvent) -> Scene {
    match e {
        WindowEvent::Resized { width, height } => scene_after_resize(s, width, height),
        WindowEvent::ScaleFactorChanged { width, height } => scene_after_resize(s, width, height),
        _ => s,
    }
}

/// Handle a window event that the camera controller did not consume:
/// close requests and the escape key end the loop, size changes resize the
/// scene.
pub fn handle_window_event(scene: &mut Scene, event: &WindowEvent) -> (directive: EventDirective)
    ensures
        *final(scene) == scene_after_window_event(*old(scene), *event),
        directive == window_event_directive(*event),
{
    match event {
        WindowEvent::CloseRequested => EventDirective::Exit,
        WindowEvent::KeyboardInput { key, pressed } => {
            if *pressed && matches!(key, crate::event::KeyCode::Escape) {
                EventDirective::Exit
            } else {
                EventDirective::Continue
            }
        },
        WindowEvent::Resized { width, height } => {
            if scene.resize(*width, *height) {
                EventDirective::Reconfigure
            } else {
                EventDirective::Continue
            }
        },
        WindowEvent::ScaleFactorChanged { width, height } => {
            if scene.resize(*width, *height) {
                EventDirective::Reconfigure
            } else {
                EventDirective::Continue
            }
        },
        WindowEvent::Other => EventDirective::Continue,
    }
}

/// The scene after one event of the loop, for the window with identity
/// `our_window_id`: its window events feed the controller first, and only
/// unconsumed ones reach the window handling; everything else leaves the
/// scene alone.
pub open spec fn scene_after_event(s: Scene, our_window_id: u64, e: Event) -> Scene {
    match e {
        Event::Window { window_id, event } => if window_id == our_window_id {
            let fed = Scene {
                camera_controller: controller_after(s.camera_controller, event),
                ..s
            };
            if !event_consumed(event) {
                scene_after_window_event(fed, event)
            } else {
                fed
            }
        } else {
            s
        },
        _ => s,
    }
}

/// The directive one event of the loop produces: redraw requests for our
/// window draw a frame, the end of a dispatch round asks for a redraw,
/// and our window's own events answer as `window_event_directive` says
/// when the controller leaves them unconsumed.
pub open spec fn event_directive(our_window_id: u64, e: Event) -> EventDirective {
    match e {
        Event::Window { window_id, event } => if window_id == our_window_id && !event_consumed(
            event,
        ) {
            window_event_directive(event)
        } else {
            EventDirective::Continue
        },
        Event::RedrawRequested { window_id } => if window_id == our_window_id {
            EventDirective::Redraw
        } else {
            EventDirective::Continue
        },
        Event::MainEventsCleared => EventDirective::RequestRedraw,
        Event::Other => EventDirective::Continue,
    }
}

/// Handle one event of the loop and say what the loop must do next.  The
/// caller performs the directive: it ends the loop, reconfigures the
/// surface, draws, or asks for a redraw.
pub fn handle_event(scene: &mut Scene, our_window_id: u64, event: &Event) -> (directive: EventDirective)
    ensures
        *final(scene) == scene_after_event(*old(scene), our_window_id, *event),
        directive == event_directive(our_window_id, *event),
{
    match event {
        Event::Window { window_id, event: window_event } => {
            if *window_id == our_window_id {
                let consumed = scene.input(window_event);
                if !consumed {
                    handle_window_event(scene, window_event)
                } else {
                    EventDirective::Continue
                }
            } else {
                EventDirective::Continue
            }
        },
        Event::RedrawRequested { window_id } => {
            if *window_id == our_window_id {
                EventDirective::Redraw
            } else {
                EventDirective::Continue
            }
        },
        Event::MainEventsCleared => EventDirective::RequestRedraw,
        Event::Other => EventDirective::Continue,
    }
}

} // verus!

