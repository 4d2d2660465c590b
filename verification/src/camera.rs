//! The discrete part of a fly camera: which way a movement request points.
//!
//! A movement changes the position by `sign * speed * elapsed time * axis`.
//! The axis and the sign are decided here; the arithmetic on the vectors is
//! left to the caller.

use vstd::prelude::*;

verus! {

/// The possible requests for camera movement, kept apart from any
/// window-system specific input method.
#[derive(Clone, Copy, Debug, PartialEq, Eq, Structural)]
pub enum CameraMovement {
    FORWARD,
    BACKWARD,
    LEFT,
    RIGHT,
}

/// The basis vector of the camera along which a movement runs.
#[derive(Clone, Copy, Debug, PartialEq, Eq, Structural)]
pub enum Axis {
    Front,
    Right,
}

impl CameraMovement {
    /// The axis a movement runs along: the front vector for forward and
    /// backward, the right vector for left and right.
    pub open spec fn spec_axis(self) -> Axis {
        match self {
            CameraMovement::FORWARD | CameraMovement::BACKWARD => Axis::Front,
            CameraMovement::LEFT | CameraMovement::RIGHT => Axis::Right,
        }
    }

    /// The sign with which the axis enters the position update: `1` for
    /// forward and right, `-1` for backward and left.
    pub open spec fn spec_sign(self) -> int {
        match self {
            CameraMovement::FORWARD | CameraMovement::RIGHT => 1,
            CameraMovement::BACKWARD | CameraMovement::LEFT => -1,
        }
    }

    /// The axis this movement runs along.
    pub fn axis(self) -> (r: Axis)
        ensures
            r == self.spec_axis(),
    {
        match self {
            CameraMovement::FORWARD | CameraMovement::BACKWARD => Axis::Front,
            CameraMovement::LEFT | CameraMovement::RIGHT => Axis::Right,
        }
    }

    /// The sign with which that axis enters the position update: `1` or
    /// `-1`.
    pub fn sign(self) -> (r: i8)
        ensures
            r == self.spec_sign(),
    {
        match self {
            CameraMovement::FORWARD | CameraMovement::RIGHT => 1,
            CameraMovement::BACKWARD | CameraMovement::LEFT => -1,
        }
    }
}

} // verus!
