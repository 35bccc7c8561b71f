use webxr::error::Error;
use webxr::events::Event;
use webxr::events::Visibility;
use webxr::headless::session_viewports;
use webxr::headless::HeadlessDeviceData;
use webxr::headless::HeadlessDiscovery;
use webxr::headless::HeadlessMockDiscovery;
use webxr::headless::HeadlessTypes;
use webxr::headless::MockDeviceMsg;
use webxr::headless::MockInputMsg;
use webxr::input::Handedness;
use webxr::input::InputId;
use webxr::input::InputSource;
use webxr::input::SelectEvent;
use webxr::input::SelectKind;
use webxr::input::TargetRayMode;
use webxr::session::SessionMode;
use webxr::utils::ClipPlanes;
use webxr::view::Viewport;

struct Mock;

impl HeadlessTypes for Mock {
    type ViewerOrigin = Option<i32>;
    type FloorTransform = Option<i32>;
    type Views = Vec<i32>;
    type World = u8;
    type Pose = Option<(i32, i32)>;
    type Distance = f32;
    type Quitter = u32;
    type Frame = usize;
    type Sink = &'static str;
}

type Data = HeadlessDeviceData<Mock>;

fn frame_for(i: usize) -> usize {
    100 + i
}

fn device() -> Data {
    HeadlessDeviceData::new(None, Some(1), vec![1, 2], None)
}

fn discovery() -> HeadlessDiscovery {
    HeadlessDiscovery { supports_vr: true, supports_inline: true, supports_ar: false }
}

fn source(id: u32) -> InputSource {
    InputSource {
        handedness: Handedness::Right,
        target_ray_mode: TargetRayMode::TrackedPointer,
        id: InputId(id),
    }
}

fn open(d: &mut Data, mode: SessionMode) -> u32 {
    discovery().request_session(d, mode, ClipPlanes::new(0.1, 1000.0)).unwrap()
}

fn send(d: &mut Data, msg: MockDeviceMsg<Mock>) -> bool {
    d.handle_msg(msg, &frame_for)
}

fn kinds(events: &[Event<usize>]) -> Vec<String> {
    events
        .iter()
        .map(|e| match e {
            Event::AddInput(s) => format!("add {}", s.id.0),
            Event::RemoveInput(id) => format!("remove {}", id.0),
            Event::UpdateInput(id, _) => format!("update {}", id.0),
            Event::SessionEnd => "end".to_string(),
            Event::VisibilityChange(v) => format!("visibility {:?}", v),
            Event::Select(id, k, p, f) => format!("select {} {:?} {:?} {}", id.0, k, p, f),
        })
        .collect()
}

fn outgoing(d: &mut Data, k: usize) -> Vec<String> {
    kinds(&d.take_outgoing(k))
}

#[test]
fn mock_discovery_is_made() {
    let _d = HeadlessMockDiscovery::new();
}

#[test]
fn sessions_get_increasing_ids() {
    let mut d = device();
    assert_eq!(open(&mut d, SessionMode::ImmersiveVR), 0);
    assert_eq!(open(&mut d, SessionMode::Inline), 1);
    assert_eq!(d.sessions.len(), 2);
    assert_eq!(d.next_id, 2);
    assert_eq!(d.find_session(1), Some(1));
    assert_eq!(d.find_session(5), None);
}

#[test]
fn unsupported_modes_are_refused() {
    let mut d = device();
    let r = discovery().request_session(&mut d, SessionMode::ImmersiveAR, ClipPlanes::new(0.1, 1.0));
    assert!(matches!(r, Err(Error::NoMatchingDevice)));
    assert!(d.sessions.is_empty());
    assert!(discovery().supports_session(&d, SessionMode::Inline));
    assert!(!discovery().supports_session(&d, SessionMode::ImmersiveAR));
}

#[test]
fn a_disconnected_device_supports_nothing() {
    let mut d = device();
    assert!(!send(&mut d, MockDeviceMsg::Disconnect));
    assert!(d.disconnected);
    assert!(!discovery().supports_session(&d, SessionMode::ImmersiveVR));
    let r = discovery().request_session(&mut d, SessionMode::ImmersiveVR, ClipPlanes::new(0.1, 1.0));
    assert!(matches!(r, Err(Error::NoMatchingDevice)));
}

#[test]
fn events_wait_for_a_destination_then_flow() {
    let mut d = device();
    let id = open(&mut d, SessionMode::ImmersiveVR);
    assert!(send(&mut d, MockDeviceMsg::VisibilityChange(Visibility::Hidden)));
    assert!(outgoing(&mut d, 0).is_empty());
    d.set_event_dest(id, "page");
    assert!(send(&mut d, MockDeviceMsg::AddInputSource(source(4), Some((1, 1)), None)));
    assert_eq!(outgoing(&mut d, 0), vec!["visibility Hidden", "add 4"]);
    d.quit(id);
    assert_eq!(outgoing(&mut d, 0), vec!["end"]);
    assert!(outgoing(&mut d, 0).is_empty());
}

#[test]
fn every_session_hears_of_a_new_input() {
    let mut d = device();
    open(&mut d, SessionMode::ImmersiveVR);
    open(&mut d, SessionMode::Inline);
    d.set_event_dest(0, "a");
    d.set_event_dest(1, "b");
    send(&mut d, MockDeviceMsg::AddInputSource(source(2), None, None));
    assert_eq!(outgoing(&mut d, 0), vec!["add 2"]);
    assert_eq!(outgoing(&mut d, 1), vec!["add 2"]);
    assert_eq!(d.inputs.len(), 1);
    assert!(d.inputs[0].active);
    assert!(!d.inputs[0].clicking);
}

#[test]
fn a_select_start_then_end_completes_a_select() {
    let mut d = device();
    open(&mut d, SessionMode::ImmersiveVR);
    d.set_event_dest(0, "a");
    send(&mut d, MockDeviceMsg::AddInputSource(source(2), None, None));
    d.take_outgoing(0);
    let start = MockInputMsg::TriggerSelect(SelectKind::Select, SelectEvent::Start);
    send(&mut d, MockDeviceMsg::MessageInputSource(InputId(2), start));
    assert!(d.inputs[0].clicking);
    let end = MockInputMsg::TriggerSelect(SelectKind::Select, SelectEvent::End);
    send(&mut d, MockDeviceMsg::MessageInputSource(InputId(2), end));
    assert!(!d.inputs[0].clicking);
    assert_eq!(outgoing(&mut d, 0), vec!["select 2 Select Start 100", "select 2 Select Select 100"]);
}

#[test]
fn an_end_without_a_start_is_an_end() {
    let mut d = device();
    open(&mut d, SessionMode::ImmersiveVR);
    open(&mut d, SessionMode::ImmersiveVR);
    d.set_event_dest(0, "a");
    d.set_event_dest(1, "b");
    send(&mut d, MockDeviceMsg::AddInputSource(source(2), None, None));
    d.take_outgoing(0);
    d.take_outgoing(1);
    let end = MockInputMsg::TriggerSelect(SelectKind::Squeeze, SelectEvent::End);
    send(&mut d, MockDeviceMsg::MessageInputSource(InputId(2), end));
    assert_eq!(outgoing(&mut d, 0), vec!["select 2 Squeeze End 100"]);
    assert_eq!(outgoing(&mut d, 1), vec!["select 2 Squeeze End 101"]);
}

#[test]
fn a_whole_select_reports_start_then_select() {
    let mut d = device();
    open(&mut d, SessionMode::ImmersiveVR);
    d.set_event_dest(0, "a");
    send(&mut d, MockDeviceMsg::AddInputSource(source(2), None, None));
    d.take_outgoing(0);
    let sel = MockInputMsg::TriggerSelect(SelectKind::Select, SelectEvent::Select);
    send(&mut d, MockDeviceMsg::MessageInputSource(InputId(2), sel));
    assert_eq!(outgoing(&mut d, 0), vec!["select 2 Select Start 100", "select 2 Select Select 100"]);
    assert!(!d.inputs[0].clicking);
}

#[test]
fn disconnected_inputs_do_not_select() {
    let mut d = device();
    open(&mut d, SessionMode::ImmersiveVR);
    d.set_event_dest(0, "a");
    send(&mut d, MockDeviceMsg::AddInputSource(source(2), None, None));
    let start = MockInputMsg::TriggerSelect(SelectKind::Select, SelectEvent::Start);
    send(&mut d, MockDeviceMsg::MessageInputSource(InputId(2), start));
    send(&mut d, MockDeviceMsg::MessageInputSource(InputId(2), MockInputMsg::Disconnect));
    send(&mut d, MockDeviceMsg::MessageInputSource(InputId(2), MockInputMsg::Disconnect));
    assert!(!d.inputs[0].active);
    assert!(!d.inputs[0].clicking);
    let start = MockInputMsg::TriggerSelect(SelectKind::Select, SelectEvent::Start);
    send(&mut d, MockDeviceMsg::MessageInputSource(InputId(2), start));
    assert!(!d.inputs[0].clicking);
    send(&mut d, MockDeviceMsg::MessageInputSource(InputId(2), MockInputMsg::Reconnect));
    send(&mut d, MockDeviceMsg::MessageInputSource(InputId(2), MockInputMsg::Reconnect));
    assert!(d.inputs[0].active);
    assert_eq!(
        outgoing(&mut d, 0),
        vec!["add 2", "select 2 Select Start 100", "remove 2", "add 2"]
    );
}

#[test]
fn input_updates_are_reported_with_the_new_source() {
    let mut d = device();
    open(&mut d, SessionMode::ImmersiveVR);
    d.set_event_dest(0, "a");
    send(&mut d, MockDeviceMsg::AddInputSource(source(2), None, None));
    d.take_outgoing(0);
    send(&mut d, MockDeviceMsg::MessageInputSource(InputId(2), MockInputMsg::SetHandedness(Handedness::Left)));
    let sent = d.take_outgoing(0);
    match &sent[..] {
        [Event::UpdateInput(InputId(2), s)] => assert_eq!(s.handedness, Handedness::Left),
        _ => panic!("expected one update"),
    }
    send(&mut d, MockDeviceMsg::MessageInputSource(InputId(2), MockInputMsg::SetTargetRayMode(TargetRayMode::Screen)));
    assert_eq!(d.inputs[0].source.target_ray_mode, TargetRayMode::Screen);
    assert_eq!(outgoing(&mut d, 0), vec!["update 2"]);
    send(&mut d, MockDeviceMsg::MessageInputSource(InputId(2), MockInputMsg::SetPointerOrigin(Some((3, 4)))));
    send(&mut d, MockDeviceMsg::MessageInputSource(InputId(2), MockInputMsg::SetGripOrigin(Some((5, 6)))));
    assert_eq!(d.inputs[0].pointer, Some((3, 4)));
    assert_eq!(d.inputs[0].grip, Some((5, 6)));
    assert!(outgoing(&mut d, 0).is_empty());
}

#[test]
fn messages_to_unknown_inputs_do_nothing() {
    let mut d = device();
    open(&mut d, SessionMode::ImmersiveVR);
    d.set_event_dest(0, "a");
    send(&mut d, MockDeviceMsg::MessageInputSource(InputId(9), MockInputMsg::Disconnect));
    assert!(outgoing(&mut d, 0).is_empty());
    assert!(d.inputs.is_empty());
}

#[test]
fn new_views_and_floor_are_flagged_for_the_next_frame() {
    let mut d = device();
    let id = open(&mut d, SessionMode::ImmersiveVR);
    assert_eq!(d.take_frame_flags(id), (false, false));
    send(&mut d, MockDeviceMsg::SetViews(vec![9]));
    send(&mut d, MockDeviceMsg::SetFloorOrigin(Some(4)));
    assert_eq!(d.views, vec![9]);
    assert_eq!(d.floor_transform, Some(4));
    assert_eq!(d.take_frame_flags(id), (true, true));
    assert_eq!(d.take_frame_flags(id), (false, false));
}

#[test]
fn scene_messages_set_the_scene() {
    let mut d = device();
    send(&mut d, MockDeviceMsg::SetViewerOrigin(Some(8)));
    assert_eq!(d.viewer_origin, Some(8));
    send(&mut d, MockDeviceMsg::SetWorld(3));
    assert_eq!(d.world, Some(3));
    send(&mut d, MockDeviceMsg::ClearWorld);
    assert_eq!(d.world, None);
}

#[test]
fn active_inputs_lists_connected_inputs_in_order() {
    let mut d = device();
    send(&mut d, MockDeviceMsg::AddInputSource(source(1), Some((1, 1)), None));
    send(&mut d, MockDeviceMsg::AddInputSource(source(2), Some((2, 2)), Some((0, 0))));
    send(&mut d, MockDeviceMsg::AddInputSource(source(3), None, None));
    send(&mut d, MockDeviceMsg::MessageInputSource(InputId(2), MockInputMsg::Disconnect));
    let a = d.active_inputs();
    assert_eq!(a, vec![(InputId(1), Some((1, 1)), None), (InputId(3), None, None)]);
}

#[test]
fn session_quitters_and_clip_planes_are_kept() {
    let mut d = device();
    let id = open(&mut d, SessionMode::ImmersiveVR);
    d.set_quitter(id, 77);
    d.update_clip_planes(id, 1.0, 2.0);
    assert_eq!(d.sessions[0].quitter, Some(77));
    assert_eq!((d.sessions[0].clip_planes.near, d.sessions[0].clip_planes.far), (1.0, 2.0));
    assert!(d.sessions[0].clip_planes.recently_updated());
}

#[test]
fn inline_sessions_have_no_viewports() {
    let vps = vec![Viewport::new(0, 0, 10, 10), Viewport::new(10, 0, 10, 10)];
    assert!(session_viewports(SessionMode::Inline, vps.clone()).is_empty());
    assert_eq!(session_viewports(SessionMode::ImmersiveVR, vps.clone()), vps);
}

#[test]
fn selects_without_a_destination_stay_buffered() {
    let mut d = device();
    open(&mut d, SessionMode::ImmersiveVR);
    send(&mut d, MockDeviceMsg::AddInputSource(source(0), None, None));
    let id = InputId(0);
    send(&mut d, MockDeviceMsg::MessageInputSource(id, MockInputMsg::TriggerSelect(SelectKind::Select, SelectEvent::Start)));
    send(&mut d, MockDeviceMsg::MessageInputSource(id, MockInputMsg::TriggerSelect(SelectKind::Select, SelectEvent::End)));
    assert!(d.sessions[0].outbox.is_empty());
    assert!(!d.inputs[0].clicking);
    match &d.sessions[0].events {
        webxr::events::EventBuffer::Buffered(events) => assert_eq!(
            kinds(events),
            vec!["add 0", "select 0 Select Start 100", "select 0 Select Select 100"]
        ),
        webxr::events::EventBuffer::Sink(_) => panic!("no destination was set"),
    }
    assert!(outgoing(&mut d, 0).is_empty());
}

#[test]
fn views_give_their_viewports_in_order() {
    let a = Viewport::new(0, 0, 10, 20);
    let b = Viewport::new(10, 0, 10, 20);
    assert_eq!(webxr::headless::views_viewports(a, None), vec![a]);
    assert_eq!(webxr::headless::views_viewports(a, Some(b)), vec![a, b]);
}

#[test]
fn a_disconnect_ends_the_sessions_that_have_a_quitter() {
    let mut d = device();
    open(&mut d, SessionMode::ImmersiveVR);
    open(&mut d, SessionMode::Inline);
    open(&mut d, SessionMode::ImmersiveVR);
    d.set_quitter(0, 7);
    d.set_quitter(2, 9);
    assert!(!send(&mut d, MockDeviceMsg::Disconnect));
    assert_eq!(d.sessions_to_quit(), vec![0, 2]);
    assert!(device().sessions_to_quit().is_empty());
}
