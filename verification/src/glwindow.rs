use vstd::prelude::*;

use crate::session::SessionMode;
use crate::utils::div_toward_zero;
use crate::view::Viewport;

verus! {

/// How a window device shows the frames that it renders.
#[derive(Clone, Copy, Debug, PartialEq, Eq, Structural)]
pub enum GlWindowMode {
    Blit,
    StereoLeftRight,
    StereoRedCyan,
}

/// The shader that a window device draws its frames with.
#[derive(Clone, Copy, Debug, PartialEq, Eq, Structural)]
pub enum ShaderKind {
    /// Copies the texture as it is.
    Passthrough,
    /// Mixes the two eyes into one red-cyan image.
    AnaglyphRedCyan,
}

impl GlWindowMode {
    /// Whether both eyes are drawn into the same pixels.
    pub open spec fn spec_is_anaglyph(self) -> bool {
        self == GlWindowMode::StereoRedCyan
    }

    /// Whether both eyes are drawn into the same pixels.
    pub fn is_anaglyph(&self) -> (r: bool)
        ensures
            r == self.spec_is_anaglyph(),
    {
        match self {
            GlWindowMode::Blit | GlWindowMode::StereoLeftRight => false,
            GlWindowMode::StereoRedCyan => true,
        }
    }

    /// The shader that frames are drawn with; none for a plain blit.
    pub fn shader_kind(&self) -> (k: Option<ShaderKind>)
        ensures
            *self == GlWindowMode::Blit ==> k is None,
            *self == GlWindowMode::StereoLeftRight ==> k == Some(ShaderKind::Passthrough),
            *self == GlWindowMode::StereoRedCyan ==> k == Some(ShaderKind::AnaglyphRedCyan),
    {
        match self {
            GlWindowMode::Blit => None,
            GlWindowMode::StereoLeftRight => Some(ShaderKind::Passthrough),
            GlWindowMode::StereoRedCyan => Some(ShaderKind::AnaglyphRedCyan),
        }
    }
}

/// A window device offers immersive sessions only.
pub fn supports_session(mode: SessionMode) -> (r: bool)
    ensures
        r == (mode == SessionMode::ImmersiveVR || mode == SessionMode::ImmersiveAR),
{
    mode == SessionMode::ImmersiveVR || mode == SessionMode::ImmersiveAR
}

/// The pixels between the eyes: an interpupillary distance of 6 cm at 6000
/// pixels per metre.
pub const INTER_PUPILLARY_PIXELS: i32 = 360;

/// The size of one eye's viewport in a window of the given size. Side by
/// side, each eye has half of the window. In anaglyph both eyes render to the
/// same surface; for the eyes to be parallel and agree at infinity, each
/// renders some wasted pixels, the eyes' offset, which are stripped off when
/// the frame is drawn to the window.
pub fn viewport_size(mode: GlWindowMode, window_width: i32, window_height: i32) -> (r: (i32, i32))
    requires
        mode.spec_is_anaglyph() ==> window_width + INTER_PUPILLARY_PIXELS <= i32::MAX,
    ensures
        mode.spec_is_anaglyph() ==> r.0 == window_width + INTER_PUPILLARY_PIXELS && r.1 == window_height,
        !mode.spec_is_anaglyph() ==> r.0 == div_toward_zero(window_width as int, 2) && r.1 == window_height,
{
    if mode.is_anaglyph() {
        (window_width + INTER_PUPILLARY_PIXELS, window_height)
    } else {
        (window_width / 2, window_height)
    }
}

/// The viewports of the two eyes, side by side, each of the given size.
pub fn viewports(width: i32, height: i32) -> (v: Vec<Viewport>)
    ensures
        v@ == seq![
            Viewport { x: 0, y: 0, width, height },
            Viewport { x: width, y: 0, width, height },
        ],
{
    let mut v = Vec::new();
    v.push(Viewport::new(0, 0, width, height));
    v.push(Viewport::new(width, 0, width, height));
    assert(v@ =~= seq![
        Viewport { x: 0, y: 0, width, height },
        Viewport { x: width, y: 0, width, height },
    ]);
    v
}

/// The width that a blit fills on the window: both eyes side by side.
pub fn blit_width(viewport_width: i32) -> (w: i32)
    requires
        i32::MIN <= 2 * viewport_width <= i32::MAX,
    ensures
        w == 2 * viewport_width,
{
    viewport_width * 2
}

} // verus!
