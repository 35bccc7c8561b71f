use vstd::prelude::*;

use crate::session::SessionMode;
use crate::view::Viewport;

verus! {

/// The longest wait, in milliseconds, between two tries to begin a frame.
pub const MAX_BACKOFF_MS: u64 = 5000;

/// A Magic Leap device offers immersive sessions only.
pub fn supports_session(mode: SessionMode) -> (r: bool)
    ensures
        r == (mode == SessionMode::ImmersiveVR || mode == SessionMode::ImmersiveAR),
{
    mode == SessionMode::ImmersiveVR || mode == SessionMode::ImmersiveAR
}

/// The wait after one of `last_ms`: twice as long, up to five seconds.
pub open spec fn spec_backoff(last_ms: u64) -> int {
    if 2 * last_ms < MAX_BACKOFF_MS {
        2 * last_ms
    } else {
        MAX_BACKOFF_MS as int
    }
}

/// How long to wait before the next try to begin a frame that timed out:
/// twice the last wait, up to five seconds.
pub fn next_backoff_ms(last_ms: u64) -> (r: u64)
    requires
        2 * last_ms <= u64::MAX,
    ensures
        r == spec_backoff(last_ms),
{
    let doubled = last_ms * 2;
    if doubled < MAX_BACKOFF_MS {
        doubled
    } else {
        MAX_BACKOFF_MS
    }
}

/// The backoff never exceeds five seconds, and it grows until it reaches
/// them.
pub proof fn lemma_backoff_bounded(last_ms: u64)
    requires
        2 * last_ms <= u64::MAX,
    ensures
        spec_backoff(last_ms) <= MAX_BACKOFF_MS,
        0 < last_ms < MAX_BACKOFF_MS ==> last_ms < spec_backoff(last_ms),
        last_ms <= MAX_BACKOFF_MS ==> spec_backoff(last_ms) <= u64::MAX,
{
}

/// The viewport of virtual camera `index` in the rendered texture: camera
/// images are stacked, each the size of the device's viewport.
pub fn camera_viewport(index: i32, width: u32, height: u32) -> (v: Viewport)
    requires
        i32::MIN <= index * (width as i32) <= i32::MAX,
    ensures
        v == (Viewport { x: 0, y: (index * (width as i32)) as i32, width: width as i32, height: height as i32 }),
{
    let w = width as i32;
    let h = height as i32;
    Viewport::new(0, index * w, w, h)
}

/// Whether a camera's viewport lies within a texture of the given size, so
/// that it can be copied.
pub fn viewport_within(v: Viewport, width: i32, height: i32) -> (r: bool)
    requires
        i32::MIN <= v.x + v.width <= i32::MAX,
        i32::MIN <= v.y + v.height <= i32::MAX,
    ensures
        r == (v.x + v.width <= width && v.y + v.height <= height),
{
    (v.x + v.width <= width) && (v.y + v.height <= height)
}

/// Whether a Magic Leap device is within a frame, and whether its views are
/// to be reported again.
#[derive(Clone, Copy, Debug, PartialEq, Eq, Structural)]
pub struct FrameState {
    pub in_frame: bool,
    pub view_update_needed: bool,
}

impl FrameState {
    /// Not within a frame, with no view update due.
    pub fn new() -> (s: FrameState)
        ensures
            !s.in_frame,
            !s.view_update_needed,
    {
        FrameState { in_frame: false, view_update_needed: false }
    }

    /// Whether a frame is to be begun with the device: only when not within
    /// one already.
    pub fn start_frame(&self) -> (begin: bool)
        ensures
            begin == !self.in_frame,
    {
        !self.in_frame
    }

    /// The device answered whether it began the frame that `start_frame`
    /// asked for: the device is within a frame once it did, and a failure
    /// leaves it as it was.
    pub fn frame_started(&mut self, began: bool)
        ensures
            final(self).in_frame == (old(self).in_frame || began),
            final(self).view_update_needed == old(self).view_update_needed,
    {
        if began {
            self.in_frame = true;
        }
    }

    /// Whether the frame is to be ended with the device: only when within
    /// one.
    pub fn stop_frame(&self) -> (end: bool)
        ensures
            end == self.in_frame,
    {
        self.in_frame
    }

    /// The device answered whether it ended the frame that `stop_frame`
    /// asked for: the device leaves the frame only once it did, and a
    /// failure leaves it within the frame.
    pub fn frame_stopped(&mut self, ended: bool)
        ensures
            final(self).in_frame == (old(self).in_frame && !ended),
            final(self).view_update_needed == old(self).view_update_needed,
    {
        if ended {
            self.in_frame = false;
        }
    }

    /// The clip planes moved: the views are to be reported with every frame
    /// from now on.
    pub fn update_clip_planes(&mut self)
        ensures
            final(self).view_update_needed,
            final(self).in_frame == old(self).in_frame,
    {
        self.view_update_needed = true;
    }
}

} // verus!
