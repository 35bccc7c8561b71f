use vstd::prelude::*;

verus! {

/// The coordinate space of the viewer. Like the other coordinate spaces
/// below, it is a marker that tags the values measured in it.
#[derive(Clone, Copy, Debug, PartialEq, Eq, Structural)]
pub struct Viewer;

/// The coordinate space of the floor.
#[derive(Clone, Copy, Debug, PartialEq, Eq, Structural)]
pub struct Floor;

/// The coordinate space of the left eye.
#[derive(Clone, Copy, Debug, PartialEq, Eq, Structural)]
pub struct LeftEye;

/// The coordinate space of the right eye.
#[derive(Clone, Copy, Debug, PartialEq, Eq, Structural)]
pub struct RightEye;

/// The native 3D coordinate space of the device.
#[derive(Clone, Copy, Debug, PartialEq, Eq, Structural)]
pub struct Native;

/// The 2D coordinate space of a device display.
#[derive(Clone, Copy, Debug, PartialEq, Eq, Structural)]
pub struct Display;

/// A rectangle of pixels on a render target: its origin and its size.
#[derive(Clone, Copy, Debug, PartialEq, Eq, Structural)]
pub struct Viewport {
    pub x: i32,
    pub y: i32,
    pub width: i32,
    pub height: i32,
}

impl Viewport {
    /// The rectangle with the given origin and size.
    pub fn new(x: i32, y: i32, width: i32, height: i32) -> (r: Viewport)
        ensures
            r == (Viewport { x, y, width, height }),
    {
        Viewport { x, y, width, height }
    }
}

/// The smallest size, from the origin, that contains every viewport (each
/// side at least zero): a framebuffer of this size can hold all of them.
pub fn enclosing_size(viewports: &Vec<Viewport>) -> (r: (i32, i32))
    requires
        forall|i: int|
            0 <= i < viewports@.len() ==> {
                &&& i32::MIN <= #[trigger] viewports@[i].x + viewports@[i].width <= i32::MAX
                &&& i32::MIN <= viewports@[i].y + viewports@[i].height <= i32::MAX
            },
    ensures
        r.0 >= 0,
        r.1 >= 0,
        forall|i: int|
            0 <= i < viewports@.len() ==> #[trigger] viewports@[i].x + viewports@[i].width <= r.0
                && viewports@[i].y + viewports@[i].height <= r.1,
        r.0 == 0 || exists|i: int|
            0 <= i < viewports@.len() && #[trigger] viewports@[i].x + viewports@[i].width == r.0,
        r.1 == 0 || exists|i: int|
            0 <= i < viewports@.len() && #[trigger] viewports@[i].y + viewports@[i].height == r.1,
{
    let mut width: i32 = 0;
    let mut height: i32 = 0;
    let n = viewports.len();
    let mut i: usize = 0;
    while i < n
        invariant
            0 <= i <= n,
            n == viewports@.len(),
            width >= 0,
            height >= 0,
            forall|k: int|
                0 <= k < viewports@.len() ==> {
                    &&& i32::MIN <= #[trigger] viewports@[k].x + viewports@[k].width <= i32::MAX
                    &&& i32::MIN <= viewports@[k].y + viewports@[k].height <= i32::MAX
                },
            forall|k: int|
                0 <= k < i ==> #[trigger] viewports@[k].x + viewports@[k].width <= width
                    && viewports@[k].y + viewports@[k].height <= height,
            width == 0 || exists|k: int| 0 <= k < i && #[trigger] viewports@[k].x + viewports@[k].width == width,
            height == 0 || exists|k: int|
                0 <= k < i && #[trigger] viewports@[k].y + viewports@[k].height == height,
        decreases n - i,
    {
        let v = viewports[i];
        let right = v.x + v.width;
        let bottom = v.y + v.height;
        if right > width {
            width = right;
        }
        if bottom > height {
            height = bottom;
        }
        i += 1;
    }
    (width, height)
}

} // verus!
