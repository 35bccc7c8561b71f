use webxr::input::Handedness;
use webxr::input::InputId;
use webxr::input::InputSource;
use webxr::input::TargetRayMode;
use webxr::session::EnvironmentBlendMode;
use webxr::session::FrameUpdateEvent;
use webxr::session::PollTimer;
use webxr::session::Session;
use webxr::session::SessionAction;
use webxr::session::SessionMsg;
use webxr::session::SessionThreadState;
use webxr::session::SessionTypes;
use webxr::swap_chain::SwapChainId;
use webxr::swap_chain::SwapChainIdGenerator;

struct Plain;

impl SessionTypes for Plain {
    type FloorTransform = Option<i32>;
    type Views = Vec<u8>;
    type EventDest = &'static str;
    type FrameDest = u32;
    type Distance = f32;
}

fn source(id: u32) -> InputSource {
    InputSource {
        handedness: Handedness::Left,
        target_ray_mode: TargetRayMode::Gaze,
        id: InputId(id),
    }
}

#[test]
fn render_advances_the_timestamp_by_one() {
    let mut s = SessionThreadState::new();
    assert_eq!(s.timestamp, 0);
    assert!(s.running);
    let a = s.handle_msg::<u8, u8, f32>(SessionMsg::RenderAnimationFrame);
    assert!(matches!(a, SessionAction::RenderFrame));
    assert_eq!(s.timestamp, 1);
    let a = s.handle_msg::<u8, u8, f32>(SessionMsg::Quit);
    assert!(matches!(a, SessionAction::Quit));
    assert_eq!(s.timestamp, 1);
    assert!(s.running);
}

#[test]
fn a_frame_request_carries_the_current_timestamp() {
    let mut s = SessionThreadState { timestamp: 41, running: true };
    let a = s.handle_msg::<u8, &str, f32>(SessionMsg::RequestAnimationFrame("dest"));
    assert!(matches!(a, SessionAction::SendFrame("dest", 41)));
    assert_eq!(s.timestamp, 41);
}

#[test]
fn messages_map_to_device_actions() {
    let mut s = SessionThreadState::new();
    let a = s.handle_msg::<u8, u8, f32>(SessionMsg::SetSwapChain(Some(SwapChainId(3))));
    assert!(matches!(a, SessionAction::UseSwapChain(Some(SwapChainId(3)))));
    let a = s.handle_msg::<u8, u8, f32>(SessionMsg::SetEventDest(9));
    assert!(matches!(a, SessionAction::SetEventDest(9)));
    let a = s.handle_msg::<u8, u8, i32>(SessionMsg::UpdateClipPlanes(1, 50));
    assert!(matches!(a, SessionAction::UpdateClipPlanes(1, 50)));
    assert_eq!(s.timestamp, 0);
}

#[test]
fn timestamp_saturates() {
    let mut s = SessionThreadState { timestamp: u64::MAX, running: true };
    s.handle_msg::<u8, u8, f32>(SessionMsg::RenderAnimationFrame);
    assert_eq!(s.timestamp, u64::MAX);
}

#[test]
fn a_missing_frame_stops_the_session() {
    let mut s = SessionThreadState::new();
    assert!(!s.frame_unavailable());
    assert!(!s.running);
    assert!(!s.keep_waiting(0));
}

#[test]
fn one_frame_waits_until_a_render() {
    let mut s = SessionThreadState::new();
    let start = s.timestamp;
    assert!(s.keep_waiting(start));
    s.handle_msg::<u8, u8, f32>(SessionMsg::Quit);
    assert!(s.keep_waiting(start));
    s.handle_msg::<u8, u8, f32>(SessionMsg::RenderAnimationFrame);
    assert!(!s.keep_waiting(start));
}

#[test]
fn session_answers_what_the_device_reported() {
    let s: Session<Plain> = Session::new(
        Some(5),
        vec![1, 2],
        (800, 600),
        EnvironmentBlendMode::AlphaBlend,
        vec![source(0), source(1)],
    );
    assert_eq!(*s.floor_transform(), Some(5));
    assert_eq!(*s.views(), vec![1, 2]);
    assert_eq!(s.recommended_framebuffer_resolution(), (800, 600));
    assert_eq!(s.environment_blend_mode(), EnvironmentBlendMode::AlphaBlend);
    assert_eq!(s.initial_inputs(), &[source(0), source(1)]);
}

#[test]
fn apply_event_updates_views_or_floor() {
    let mut s: Session<Plain> =
        Session::new(None, vec![], (1, 1), EnvironmentBlendMode::Opaque, vec![]);
    s.apply_event(FrameUpdateEvent::UpdateViews(vec![7]));
    assert_eq!(s.views, vec![7]);
    assert_eq!(s.floor_transform, None);
    s.apply_event(FrameUpdateEvent::UpdateFloorTransform(Some(3)));
    assert_eq!(s.floor_transform, Some(3));
    assert_eq!(s.views, vec![7]);
}

#[test]
fn session_builds_its_messages() {
    let s: Session<Plain> =
        Session::new(None, vec![], (1, 1), EnvironmentBlendMode::Opaque, vec![]);
    assert!(matches!(s.set_swap_chain(None), SessionMsg::SetSwapChain(None)));
    assert!(matches!(s.request_animation_frame(4), SessionMsg::RequestAnimationFrame(4)));
    assert!(matches!(s.set_event_dest("e"), SessionMsg::SetEventDest("e")));
    assert!(matches!(s.render_animation_frame(), SessionMsg::RenderAnimationFrame));
    assert!(matches!(s.end_session(), SessionMsg::Quit));
    match s.update_clip_planes(0.5, 20.0) {
        SessionMsg::UpdateClipPlanes(n, f) => assert_eq!((n, f), (0.5, 20.0)),
        _ => panic!("wrong message"),
    }
}

#[test]
fn poll_timer_doubles_its_wait() {
    let mut t = PollTimer::new(5_000_000);
    assert_eq!(t.delay, 5_000);
    let mut waits = vec![];
    while t.keep_polling() {
        waits.push(t.delay);
        t.advance();
    }
    assert_eq!(waits, vec![5_000, 10_000, 20_000, 40_000, 80_000, 160_000, 320_000, 640_000, 1_280_000, 2_560_000]);
}

#[test]
fn swap_chain_ids_are_handed_out_in_order() {
    let mut g = SwapChainIdGenerator::new();
    assert_eq!(SwapChainId::new(&mut g), SwapChainId(0));
    assert_eq!(SwapChainId::new(&mut g), SwapChainId(1));
    assert_eq!(SwapChainId::new(&mut g), SwapChainId(2));
    let mut last = SwapChainIdGenerator { next: usize::MAX };
    assert_eq!(SwapChainId::new(&mut last), SwapChainId(usize::MAX));
    assert_eq!(last.next, 0);
}
