use vstd::prelude::*;

use crate::input::InputSource;
use crate::swap_chain::SwapChainId;

verus! {

/// The kinds of XR session that a page can request.
/// https://www.w3.org/TR/webxr/#xrsessionmode-enum
#[derive(Clone, Copy, Debug, PartialEq, Eq, Structural)]
pub enum SessionMode {
    Inline,
    ImmersiveVR,
    ImmersiveAR,
}

/// How the rendered content is blended with the real world.
/// https://immersive-web.github.io/webxr-ar-module/#xrenvironmentblendmode-enum
#[derive(Clone, Copy, Debug, PartialEq, Eq, Structural)]
pub enum EnvironmentBlendMode {
    Opaque,
    AlphaBlend,
    Additive,
}

/// A message from the content thread to the thread that runs a session.
/// `D` is a destination for events, `F` a destination for frames, and `C`
/// a clip plane distance.
pub enum SessionMsg<D, F, C> {
    SetSwapChain(Option<SwapChainId>),
    SetEventDest(D),
    UpdateClipPlanes(C, C),
    RequestAnimationFrame(F),
    RenderAnimationFrame,
    Quit,
}

/// What the session thread is to do with the device after a message.
pub enum SessionAction<D, F, C> {
    /// Use the swap chain with this id, if any, for the frames to come.
    UseSwapChain(Option<SwapChainId>),
    /// Send the device's events to this destination.
    SetEventDest(D),
    /// Move the device's clip planes.
    UpdateClipPlanes(C, C),
    /// Wait for the device's next frame and send it, with this timestamp,
    /// to this destination; report to `frame_unavailable` if there is none.
    SendFrame(F, u64),
    /// Render the current swap chain's surface, if any, to the device.
    RenderFrame,
    /// Tell the device to quit.
    Quit,
}

/// The state of the thread that runs a session: a timestamp that counts
/// the rendered frames, and whether the session still runs.
#[derive(Clone, Copy, Debug, PartialEq, Eq, Structural)]
pub struct SessionThreadState {
    pub timestamp: u64,
    pub running: bool,
}

impl SessionThreadState {
    /// The action that a message calls for.
    pub open spec fn spec_action<D, F, C>(self, msg: SessionMsg<D, F, C>) -> SessionAction<D, F, C> {
        match msg {
            SessionMsg::SetSwapChain(id) => SessionAction::UseSwapChain(id),
            SessionMsg::SetEventDest(d) => SessionAction::SetEventDest(d),
            SessionMsg::UpdateClipPlanes(near, far) => SessionAction::UpdateClipPlanes(near, far),
            SessionMsg::RequestAnimationFrame(f) => SessionAction::SendFrame(f, self.timestamp),
            SessionMsg::RenderAnimationFrame => SessionAction::RenderFrame,
            SessionMsg::Quit => SessionAction::Quit,
        }
    }

    /// The timestamp after a message: it counts rendered frames.
    pub open spec fn spec_timestamp_after<D, F, C>(self, msg: SessionMsg<D, F, C>) -> u64 {
        match msg {
            SessionMsg::RenderAnimationFrame => if self.timestamp < u64::MAX {
                (self.timestamp + 1) as u64
            } else {
                self.timestamp
            },
            _ => self.timestamp,
        }
    }

    /// A session that runs and has rendered no frame.
    pub fn new() -> (s: SessionThreadState)
        ensures
            s.timestamp == 0,
            s.running,
    {
        SessionThreadState { timestamp: 0, running: true }
    }

    /// Takes a message from the content thread and answers what to do with
    /// the device. Rendering a frame advances the timestamp.
    pub fn handle_msg<D, F, C>(&mut self, msg: SessionMsg<D, F, C>) -> (a: SessionAction<D, F, C>)
        ensures
            a == old(self).spec_action(msg),
            final(self).timestamp == old(self).spec_timestamp_after(msg),
            final(self).running == old(self).running,
    {
        match msg {
            SessionMsg::SetSwapChain(id) => SessionAction::UseSwapChain(id),
            SessionMsg::SetEventDest(d) => SessionAction::SetEventDest(d),
            SessionMsg::UpdateClipPlanes(near, far) => SessionAction::UpdateClipPlanes(near, far),
            SessionMsg::RequestAnimationFrame(f) => SessionAction::SendFrame(f, self.timestamp),
            SessionMsg::RenderAnimationFrame => {
                self.timestamp = self.timestamp.saturating_add(1);
                SessionAction::RenderFrame
            },
            SessionMsg::Quit => SessionAction::Quit,
        }
    }

    /// The device had no frame to give: the session stops running. Answers
    /// whether to keep handling messages, which is no.
    pub fn frame_unavailable(&mut self) -> (keep: bool)
        ensures
            !keep,
            !final(self).running,
            final(self).timestamp == old(self).timestamp,
    {
        self.running = false;
        false
    }

    /// Whether a thread that runs one frame on the main thread keeps taking
    /// messages: until a frame is rendered after `start`, or the session stops.
    pub fn keep_waiting(&self, start: u64) -> (r: bool)
        ensures
            r == (self.timestamp == start && self.running),
    {
        self.timestamp == start && self.running
    }
}

/// Only rendering a frame moves the timestamp, by one (short of the
/// largest timestamp); so one frame run on the main thread ends after the
/// first render.
pub proof fn lemma_timestamp_counts_renders<D, F, C>(s: SessionThreadState, msg: SessionMsg<D, F, C>)
    requires
        s.timestamp < u64::MAX,
    ensures
        msg is RenderAnimationFrame ==> s.spec_timestamp_after(msg) == s.timestamp + 1,
        !(msg is RenderAnimationFrame) ==> s.spec_timestamp_after(msg) == s.timestamp,
        msg is RenderAnimationFrame ==> s.spec_timestamp_after(msg) != s.timestamp,
{
}

/// The types of the values that a session carries but does not inspect.
pub trait SessionTypes {
    /// The transform from native space to the floor, if it is known.
    type FloorTransform;
    /// The views of the device.
    type Views;
    /// A destination for events.
    type EventDest;
    /// A destination for frames.
    type FrameDest;
    /// A clip plane distance.
    type Distance;
}

/// A change of the device that a frame reports to the session.
pub enum FrameUpdateEvent<V, F> {
    UpdateViews(V),
    UpdateFloorTransform(F),
}

/// What the content thread knows of an XR session, and the messages with
/// which it drives the session's thread.
/// https://www.w3.org/TR/webxr/#xrsession-interface
pub struct Session<T: SessionTypes> {
    pub floor_transform: T::FloorTransform,
    pub views: T::Views,
    /// The recommended framebuffer resolution: width and height.
    pub resolution: (i32, i32),
    pub environment_blend_mode: EnvironmentBlendMode,
    pub initial_inputs: Vec<InputSource>,
}

impl<T: SessionTypes> Session<T> {
    /// A session with what the device reported when it was opened.
    pub fn new(
        floor_transform: T::FloorTransform,
        views: T::Views,
        resolution: (i32, i32),
        environment_blend_mode: EnvironmentBlendMode,
        initial_inputs: Vec<InputSource>,
    ) -> (s: Self)
        ensures
            s.floor_transform == floor_transform,
            s.views == views,
            s.resolution == resolution,
            s.environment_blend_mode == environment_blend_mode,
            s.initial_inputs@ == initial_inputs@,
    {
        Session { floor_transform, views, resolution, environment_blend_mode, initial_inputs }
    }

    pub fn floor_transform(&self) -> (r: &T::FloorTransform)
        ensures
            *r == self.floor_transform,
    {
        &self.floor_transform
    }

    pub fn initial_inputs(&self) -> (r: &[InputSource])
        ensures
            r@ == self.initial_inputs@,
    {
        self.initial_inputs.as_slice()
    }

    pub fn views(&self) -> (r: &T::Views)
        ensures
            *r == self.views,
    {
        &self.views
    }

    pub fn environment_blend_mode(&self) -> (r: EnvironmentBlendMode)
        ensures
            r == self.environment_blend_mode,
    {
        self.environment_blend_mode
    }

    /// A resolution large enough to contain all the viewports.
    pub fn recommended_framebuffer_resolution(&self) -> (r: (i32, i32))
        ensures
            r == self.resolution,
    {
        self.resolution
    }

    /// Takes in a change that a frame reported.
    pub fn apply_event(&mut self, event: FrameUpdateEvent<T::Views, T::FloorTransform>)
        ensures
            event matches FrameUpdateEvent::UpdateViews(v) ==> final(self).views == v
                && final(self).floor_transform == old(self).floor_transform,
            event matches FrameUpdateEvent::UpdateFloorTransform(f) ==> final(self).floor_transform
                == f && final(self).views == old(self).views,
            final(self).resolution == old(self).resolution,
            final(self).environment_blend_mode == old(self).environment_blend_mode,
            final(self).initial_inputs@ == old(self).initial_inputs@,
    {
        match event {
            FrameUpdateEvent::UpdateViews(views) => self.views = views,
            FrameUpdateEvent::UpdateFloorTransform(floor) => self.floor_transform = floor,
        }
    }

    /// The message that renders frames into the given swap chain (or none).
    pub fn set_swap_chain(&self, swap_chain_id: Option<SwapChainId>) -> (m: SessionMsg<
        T::EventDest,
        T::FrameDest,
        T::Distance,
    >)
        ensures
            m == SessionMsg::<T::EventDest, T::FrameDest, T::Distance>::SetSwapChain(swap_chain_id),
    {
        SessionMsg::SetSwapChain(swap_chain_id)
    }

    /// The message that asks for the next frame, to be sent to `dest`.
    pub fn request_animation_frame(&self, dest: T::FrameDest) -> (m: SessionMsg<
        T::EventDest,
        T::FrameDest,
        T::Distance,
    >)
        ensures
            m == SessionMsg::<T::EventDest, T::FrameDest, T::Distance>::RequestAnimationFrame(dest),
    {
        SessionMsg::RequestAnimationFrame(dest)
    }

    /// The message that moves the clip planes.
    pub fn update_clip_planes(&self, near: T::Distance, far: T::Distance) -> (m: SessionMsg<
        T::EventDest,
        T::FrameDest,
        T::Distance,
    >)
        ensures
            m == SessionMsg::<T::EventDest, T::FrameDest, T::Distance>::UpdateClipPlanes(near, far),
    {
        SessionMsg::UpdateClipPlanes(near, far)
    }

    /// The message that sends the device's events to `dest`.
    pub fn set_event_dest(&self, dest: T::EventDest) -> (m: SessionMsg<
        T::EventDest,
        T::FrameDest,
        T::Distance,
    >)
        ensures
            m == SessionMsg::<T::EventDest, T::FrameDest, T::Distance>::SetEventDest(dest),
    {
        SessionMsg::SetEventDest(dest)
    }

    /// The message that renders the current frame.
    pub fn render_animation_frame(&self) -> (m: SessionMsg<
        T::EventDest,
        T::FrameDest,
        T::Distance,
    >)
        ensures
            m == SessionMsg::<T::EventDest, T::FrameDest, T::Distance>::RenderAnimationFrame,
    {
        SessionMsg::RenderAnimationFrame
    }

    /// The message that ends the session.
    pub fn end_session(&self) -> (m: SessionMsg<T::EventDest, T::FrameDest, T::Distance>)
        ensures
            m == SessionMsg::<T::EventDest, T::FrameDest, T::Distance>::Quit,
    {
        SessionMsg::Quit
    }
}

/// How long, in nanoseconds, a receiver that polls waits between two tries
/// to receive before its timeout.
#[derive(Clone, Copy, Debug, PartialEq, Eq, Structural)]
pub struct PollTimer {
    pub delay: u64,
    pub timeout: u64,
}

impl PollTimer {
    /// The first wait is a thousandth of the timeout.
    pub fn new(timeout: u64) -> (t: PollTimer)
        ensures
            t.delay == timeout / 1000,
            t.timeout == timeout,
    {
        PollTimer { delay: timeout / 1000, timeout }
    }

    /// Whether to try again after a wait, rather than try a last time.
    pub fn keep_polling(&self) -> (r: bool)
        ensures
            r == (self.delay < self.timeout),
    {
        self.delay < self.timeout
    }

    /// Each wait is twice the one before.
    pub fn advance(&mut self)
        requires
            old(self).delay < old(self).timeout,
            2 * old(self).delay <= u64::MAX,
        ensures
            final(self).delay == 2 * old(self).delay,
            final(self).timeout == old(self).timeout,
    {
        self.delay = self.delay * 2;
    }
}

} // verus!
