use vstd::prelude::*;

use crate::utils::div_toward_zero;

use crate::input::Handedness;
use crate::input::InputId;
use crate::input::InputSource;
use crate::input::TargetRayMode;
use crate::session::SessionMode;
use crate::view::Viewport;

verus! {

/// The raw value of `GVR_CONTROLLER_LEFT_HANDED`.
pub const GVR_CONTROLLER_LEFT_HANDED: i32 = 1;

/// How far ahead of now, in nanoseconds, the head pose is predicted: the time
/// between submitting a frame and its pixels reaching the display.
pub const PREDICTION_OFFSET_NANOS: i64 = 50000000;

/// Makes a value that may be sent to another thread, such as a handle of the
/// GoogleVR SDK.
#[derive(Clone, Copy, Debug)]
pub struct SendPtr<T>(pub T);

impl<T> SendPtr<T> {
    pub fn new(value: T) -> (p: SendPtr<T>)
        ensures
            p.0 == value,
    {
        SendPtr(value)
    }

    /// The value.
    pub fn get(self) -> (v: T)
        ensures
            v == self.0,
    {
        self.0
    }
}

/// A GoogleVR device offers immersive VR sessions only.
pub fn supports_session(mode: SessionMode) -> (r: bool)
    ensures
        r == (mode == SessionMode::ImmersiveVR),
{
    mode == SessionMode::ImmersiveVR
}

/// The render size used for a device whose largest effective render target
/// is `max_width` by `max_height`: each side scaled by 7/10, close to
/// sqrt(2)/2, so that half as many pixels are drawn.
pub fn recommended_render_size(max_width: i32, max_height: i32) -> (r: (i32, i32))
    requires
        i32::MIN <= 7 * max_width <= i32::MAX,
        i32::MIN <= 7 * max_height <= i32::MAX,
    ensures
        r.0 == div_toward_zero(7 * max_width, 10),
        r.1 == div_toward_zero(7 * max_height, 10),
{
    ((7 * max_width) / 10, (7 * max_height) / 10)
}

/// The size of the swap chain's buffer for a render size: with multiview the
/// buffer is an array of two layers, each half as wide.
pub fn buffer_size(width: i32, height: i32, multiview: bool) -> (r: (i32, i32))
    ensures
        multiview ==> r.0 == div_toward_zero(width as int, 2) && r.1 == height,
        !multiview ==> r == (width, height),
{
    if multiview {
        (width / 2, height)
    } else {
        (width, height)
    }
}

/// The number of samples of the swap chain's buffer.
pub fn buffer_samples(multisampling: bool) -> (r: i32)
    ensures
        multisampling ==> r == 2,
        !multisampling ==> r == 0,
{
    if multisampling {
        2
    } else {
        0
    }
}

/// The viewport of an eye on the render target: the left or the right half.
pub fn eye_viewport(render_width: i32, render_height: i32, is_left: bool) -> (v: Viewport)
    ensures
        v.width == div_toward_zero(render_width as int, 2),
        v.height == render_height,
        v.y == 0,
        is_left ==> v.x == 0,
        !is_left ==> v.x == div_toward_zero(render_width as int, 2),
{
    let x = if is_left {
        0
    } else {
        render_width / 2
    };
    Viewport::new(x, 0, render_width / 2, render_height)
}

/// Multiview is kept only when the device supports it.
pub fn multiview_after_init(requested: bool, supported: bool) -> (r: bool)
    ensures
        r == (requested && supported),
{
    requested && supported
}

/// Whether the swap chain's buffer is to be resized before a frame.
pub fn needs_resize(current: (i32, i32), recommended: (i32, i32)) -> (r: bool)
    ensures
        r == (current.0 != recommended.0 || current.1 != recommended.1),
{
    recommended.0 != current.0 || recommended.1 != current.1
}

/// The time at which the head pose is predicted, from now.
pub fn predicted_time(now_nanos: i64) -> (r: i64)
    requires
        now_nanos + PREDICTION_OFFSET_NANOS <= i64::MAX,
    ensures
        r == now_nanos + PREDICTION_OFFSET_NANOS,
{
    now_nanos + PREDICTION_OFFSET_NANOS
}

/// The hand that holds the controller, from the user's preference: left
/// when so set, else right.
pub fn controller_handedness(raw: i32) -> (h: Handedness)
    ensures
        raw == GVR_CONTROLLER_LEFT_HANDED ==> h == Handedness::Left,
        raw != GVR_CONTROLLER_LEFT_HANDED ==> h == Handedness::Right,
{
    if raw == GVR_CONTROLLER_LEFT_HANDED {
        Handedness::Left
    } else {
        Handedness::Right
    }
}

/// The input sources of a GoogleVR device: its controller, if it has one,
/// as input 0, a tracked pointer held in the given hand.
pub fn initial_inputs(controller: Option<Handedness>) -> (v: Vec<InputSource>)
    ensures
        controller is None ==> v@ == Seq::<InputSource>::empty(),
        controller matches Some(h) ==> v@ == seq![
            InputSource {
                handedness: h,
                target_ray_mode: TargetRayMode::TrackedPointer,
                id: InputId(0),
            },
        ],
{
    let mut v = Vec::new();
    match controller {
        Some(h) => {
            v.push(
                InputSource {
                    handedness: h,
                    target_ray_mode: TargetRayMode::TrackedPointer,
                    id: InputId(0),
                },
            );
            assert(v@ =~= seq![
                InputSource {
                    handedness: h,
                    target_ray_mode: TargetRayMode::TrackedPointer,
                    id: InputId(0),
                },
            ]);
        },
        None => {},
    }
    v
}

/// Whether a GoogleVR device presents frames, and whether its GL objects
/// have been made.
#[derive(Clone, Copy, Debug, PartialEq, Eq, Structural)]
pub struct PresentState {
    pub presenting: bool,
    pub gl_initialized: bool,
}

impl PresentState {
    /// A device that presents has made its GL objects.
    pub open spec fn wf(self) -> bool {
        self.presenting ==> self.gl_initialized
    }

    /// The state after `start_present`, and what it answers.
    pub open spec fn spec_start(self) -> (PresentState, (bool, bool)) {
        if self.presenting {
            (self, (false, false))
        } else {
            (PresentState { presenting: true, gl_initialized: true }, (true, !self.gl_initialized))
        }
    }

    /// The state after `stop_present`, and what it answers.
    pub open spec fn spec_stop(self) -> (PresentState, bool) {
        (PresentState { presenting: false, ..self }, self.presenting)
    }

    /// Not presenting, and no GL object made.
    pub fn new() -> (s: PresentState)
        ensures
            !s.presenting,
            !s.gl_initialized,
    {
        PresentState { presenting: false, gl_initialized: false }
    }

    /// Starts presenting. Answers whether the platform is to be told, and
    /// whether the GL objects are to be made now: both only when presentation
    /// starts, the latter only the first time.
    pub fn start_present(&mut self) -> (r: (bool, bool))
        ensures
            (*final(self), r) == old(self).spec_start(),
    {
        if self.presenting {
            return (false, false);
        }
        self.presenting = true;
        let init_gl = !self.gl_initialized;
        self.gl_initialized = true;
        (true, init_gl)
    }

    /// Stops presenting. Answers whether the platform is to be told: only
    /// when presentation stops.
    pub fn stop_present(&mut self) -> (notify: bool)
        ensures
            (*final(self), notify) == old(self).spec_stop(),
    {
        if !self.presenting {
            return false;
        }
        self.presenting = false;
        true
    }
}

/// Starting twice does no more than starting once, and stopping twice no
/// more than stopping once; the GL objects are made on the first start only,
/// however often presentation stops and starts again.
pub proof fn lemma_present_idempotent(s: PresentState)
    requires
        s.wf(),
    ensures
        s.spec_start().0.wf(),
        s.spec_stop().0.wf(),
        s.spec_start().0.spec_start() == (s.spec_start().0, (false, false)),
        s.spec_stop().0.spec_stop() == (s.spec_stop().0, false),
        s.spec_start().0.presenting,
        !s.spec_stop().0.presenting,
        s.spec_start().0.spec_stop().0.spec_start().1.1 == false,
        PresentState::new_spec().spec_start().1 == (true, true),
{
}

impl PresentState {
    /// The state that `new` gives.
    pub open spec fn new_spec() -> PresentState {
        PresentState { presenting: false, gl_initialized: false }
    }
}

} // verus!
