//! The view of the scene.

use vstd::prelude::*;

verus! {

/// The size of a window or image in pixels.
#[derive(Clone, Copy, Debug, PartialEq, Eq, Structural)]
pub struct Extent {
    pub width: u32,
    pub height: u32,
}

/// A point or direction in the scene.
#[derive(Clone, Copy, Debug, PartialEq, Eq, Structural)]
pub struct Coordinates {
    pub x: i32,
    pub y: i32,
    pub z: i32,
}

/// How far the camera stands back and up from the centre of the scene.
pub const VIEW_DISTANCE: i32 = 20;

/// What the projection and view matrix is made of. The aspect ratio is that of `extent`.
#[derive(Clone, Copy, Debug, PartialEq, Eq, Structural)]
pub struct Camera {
    pub vertical_field_of_view_degrees: u32,
    pub extent: Extent,
    pub near: u32,
    pub far: u32,
    pub eye: Coordinates,
    pub target: Coordinates,
    pub up: Coordinates,
}

impl Camera {
    /// The camera for a window: it sees a right angle, from 1 to 100 away, and looks at the
    /// centre of the scene.
    pub open spec fn spec_for_window(extent: Extent) -> Camera {
        Camera {
            vertical_field_of_view_degrees: 90,
            extent,
            near: 1,
            far: 100,
            eye: Coordinates { x: 0, y: (-VIEW_DISTANCE) as i32, z: (-VIEW_DISTANCE) as i32 },
            target: Coordinates { x: 0, y: 0, z: 0 },
            up: Coordinates { x: 0, y: 1, z: 0 },
        }
    }

    /// The camera for a window of the given size.
    pub fn for_window(extent: Extent) -> (camera: Camera)
        ensures
            camera == Camera::spec_for_window(extent),
    {
        Camera {
            vertical_field_of_view_degrees: 90,
            extent,
            near: 1,
            far: 100,
            eye: Coordinates { x: 0, y: -VIEW_DISTANCE, z: -VIEW_DISTANCE },
            target: Coordinates { x: 0, y: 0, z: 0 },
            up: Coordinates { x: 0, y: 1, z: 0 },
        }
    }
}

/// For every window the camera has the window's aspect ratio, and otherwise does not depend on
/// the window: it sees a right angle from 1 to 100 away, and looks from 20 up and 20 back at the
/// centre of the scene, with the second axis upright.
pub proof fn law_camera(extent: Extent)
    ensures
        ({
            let camera = Camera::spec_for_window(extent);
            &&& camera.extent.width == extent.width
            &&& camera.extent.height == extent.height
            &&& camera.vertical_field_of_view_degrees == 90
            &&& camera.near == 1
            &&& camera.far == 100
            &&& camera.eye.x == 0 && camera.eye.y == -20 && camera.eye.z == -20
            &&& camera.target.x == 0 && camera.target.y == 0 && camera.target.z == 0
            &&& camera.up.x == 0 && camera.up.y == 1 && camera.up.z == 0
        }),
{
}

} // verus!
