//! What the events and key states of a frame ask of the window and of the
//! camera.

use crate::camera::CameraMovement;
use vstd::prelude::*;

verus! {

/// Whether each of the keys that the input step reads is held down.
#[derive(Clone, Copy, Debug, PartialEq, Eq, Structural)]
pub struct KeyStates {
    pub escape: bool,
    pub w: bool,
    pub s: bool,
    pub a: bool,
    pub d: bool,
}

/// What the input step asks for: whether the window is to close, and the
/// camera movements to apply, in this order.
#[derive(Debug)]
pub struct InputActions {
    pub close: bool,
    pub movements: Vec<CameraMovement>,
}

/// `movement` alone where `pressed` holds, nothing otherwise.
pub open spec fn movement_if(pressed: bool, movement: CameraMovement) -> Seq<CameraMovement> {
    if pressed {
        seq![movement]
    } else {
        Seq::empty()
    }
}

/// The camera movements that `keys` ask for: forward for `w`, backward for
/// `s`, left for `a`, right for `d`, each where the key is held down, and
/// in this order.
pub open spec fn movements_for(keys: KeyStates) -> Seq<CameraMovement> {
    movement_if(keys.w, CameraMovement::FORWARD) + movement_if(keys.s, CameraMovement::BACKWARD)
        + movement_if(keys.a, CameraMovement::LEFT) + movement_if(keys.d, CameraMovement::RIGHT)
}

/// Decides what the key states of one frame ask for: the escape key closes
/// the window, and `w`, `s`, `a`, `d` move the camera.
pub fn process_input(keys: KeyStates) -> (r: InputActions)
    ensures
        r.close == keys.escape,
        r.movements@ == movements_for(keys),
{
    let mut movements: Vec<CameraMovement> = Vec::new();
    if keys.w {
        movements.push(CameraMovement::FORWARD);
    }
    if keys.s {
        movements.push(CameraMovement::BACKWARD);
    }
    if keys.a {
        movements.push(CameraMovement::LEFT);
    }
    if keys.d {
        movements.push(CameraMovement::RIGHT);
    }
    assert(movements@ =~= movements_for(keys));
    InputActions { close: keys.escape, movements }
}

/// An event of the window, as far as the exercises tell events apart.
#[derive(Clone, Copy, Debug, PartialEq, Eq, Structural)]
pub enum WindowEvent {
    /// The framebuffer now has this width and height.
    FramebufferSize { width: i32, height: i32 },
    /// A key changed: whether it is the escape key, and whether it went
    /// down.
    Key { escape: bool, pressed: bool },
    /// Any other event.
    Other,
}

/// What an event asks of the window.
#[derive(Clone, Copy, Debug, PartialEq, Eq, Structural)]
pub enum WindowAction {
    /// Set the viewport to this rectangle.
    Viewport { x: i32, y: i32, width: i32, height: i32 },
    /// Mark the window as one that should close.
    Close,
    /// Do nothing.
    Nothing,
}

/// What `event` asks for: a new framebuffer size makes the viewport cover
/// the whole framebuffer, pressing the escape key closes the window, and
/// nothing else has an effect.
pub open spec fn action_for(event: WindowEvent) -> WindowAction {
    match event {
        WindowEvent::FramebufferSize { width, height } => WindowAction::Viewport {
            x: 0,
            y: 0,
            width,
            height,
        },
        WindowEvent::Key { escape, pressed } => if escape && pressed {
            WindowAction::Close
        } else {
            WindowAction::Nothing
        },
        WindowEvent::Other => WindowAction::Nothing,
    }
}

/// Decides what one event of the window asks for.
pub fn process_event(event: WindowEvent) -> (r: WindowAction)
    ensures
        r == action_for(event),
{
    match event {
        WindowEvent::FramebufferSize { width, height } => WindowAction::Viewport {
            x: 0,
            y: 0,
            width,
            height,
        },
        WindowEvent::Key { escape: true, pressed: true } => WindowAction::Close,
        _ => WindowAction::Nothing,
    }
}

} // verus!
