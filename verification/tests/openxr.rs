use webxr::events::Visibility;
use webxr::input::Handedness;
use webxr::input::InputId;
use webxr::input::SelectEvent;
use webxr::input::SelectKind;
use webxr::input::TargetRayMode;
use webxr::openxr::after_menu_poll;
use webxr::openxr::environment_blend_mode;
use webxr::openxr::frame_decision;
use webxr::openxr::hand_str;
use webxr::openxr::initial_inputs;
use webxr::openxr::needs_view_update;
use webxr::openxr::pick_format;
use webxr::openxr::react_to_event;
use webxr::openxr::react_while_quitting;
use webxr::openxr::stereo_viewports;
use webxr::openxr::supported_features;
use webxr::openxr::supports_hands;
use webxr::openxr::supports_session;
use webxr::openxr::ClickState;
use webxr::openxr::ContextMenuResult;
use webxr::openxr::HandInputState;
use webxr::openxr::HandReport;
use webxr::openxr::MenuGesture;
use webxr::openxr::PolledEvent;
use webxr::openxr::XrSessionState;
use webxr::openxr::DXGI_FORMAT_B8G8R8A8_UNORM;
use webxr::session::EnvironmentBlendMode;
use webxr::session::SessionMode;
use webxr::view::Viewport;

#[test]
fn press_and_release_is_a_select() {
    let mut c = ClickState::Done;
    assert_eq!(c.update(true, true), (true, Some(SelectEvent::Start)));
    assert_eq!(c, ClickState::Clicking);
    assert_eq!(c.update(true, true), (true, None));
    assert_eq!(c.update(true, false), (true, Some(SelectEvent::Select)));
    assert_eq!(c, ClickState::Done);
    assert_eq!(c.update(true, false), (true, None));
}

#[test]
fn losing_tracking_mid_click_ends_without_select() {
    let mut c = ClickState::Done;
    c.update(true, true);
    assert_eq!(c.update(false, true), (false, None));
    assert_eq!(c, ClickState::ClickingLost);
    assert_eq!(c.update(false, false), (false, None));
    assert_eq!(c.update(true, true), (true, None));
    assert_eq!(c.update(true, false), (true, Some(SelectEvent::End)));
    assert_eq!(c, ClickState::Done);
}

#[test]
fn menu_opens_after_sixty_one_frames_palm_up() {
    let mut g = MenuGesture::new();
    for _ in 0..60 {
        assert!(!g.update(Some(true)));
    }
    assert_eq!(g.sustain, 60);
    assert!(g.update(Some(true)));
    assert_eq!(g.sustain, 0);
}

#[test]
fn menu_count_restarts_when_the_palm_turns() {
    let mut g = MenuGesture::new();
    for _ in 0..30 {
        g.update(Some(true));
    }
    assert!(!g.update(Some(false)));
    assert_eq!(g.sustain, 0);
    g.update(Some(true));
    assert!(!g.update(None));
    assert_eq!(g.sustain, 0);
}

#[test]
fn hand_frame_reports_select_and_squeeze() {
    let mut h = HandInputState::new();
    let r = h.frame(true, true, true, false, None);
    assert_eq!(r, HandReport {
        select: Some(SelectEvent::Start),
        squeeze: None,
        menu_selected: false,
        pressed: true,
        squeezed: false,
    });
    let r = h.frame(false, true, true, true, Some(false));
    assert_eq!(r.select, None);
    assert_eq!(r.squeeze, Some(SelectEvent::Start));
    assert!(!r.pressed);
    assert!(r.squeezed);
}

fn report(select: Option<SelectEvent>, squeeze: Option<SelectEvent>, menu: bool) -> HandReport {
    HandReport { select, squeeze, menu_selected: menu, pressed: false, squeezed: false }
}

#[test]
fn frame_reports_right_then_left_events() {
    let right = report(Some(SelectEvent::Start), Some(SelectEvent::End), false);
    let left = report(None, Some(SelectEvent::Select), false);
    let d = frame_decision(false, right, left);
    assert!(!d.open_menu);
    assert!(!d.hide_inputs);
    assert_eq!(d.events, vec![
        (InputId(0), SelectKind::Select, SelectEvent::Start),
        (InputId(0), SelectKind::Squeeze, SelectEvent::End),
        (InputId(1), SelectKind::Squeeze, SelectEvent::Select),
    ]);
}

#[test]
fn menu_gesture_opens_the_menu_then_hides_inputs() {
    let right = report(Some(SelectEvent::Start), None, true);
    let left = report(None, None, false);
    let d = frame_decision(false, right, left);
    assert!(d.open_menu);
    assert!(!d.hide_inputs);
    assert_eq!(d.events.len(), 1);
    let d = frame_decision(true, right, left);
    assert!(!d.open_menu);
    assert!(d.hide_inputs);
    assert!(d.events.is_empty());
}

#[test]
fn menu_poll_outcomes() {
    assert_eq!(after_menu_poll(ContextMenuResult::ExitSession), (true, true));
    assert_eq!(after_menu_poll(ContextMenuResult::Dismissed), (false, false));
    assert_eq!(after_menu_poll(ContextMenuResult::Pending), (false, true));
}

#[test]
fn stopping_hides_and_ready_resumes() {
    let r = react_to_event(false, PolledEvent::SessionStateChanged(XrSessionState::Stopping));
    assert_eq!(r.visibility, Some(Visibility::Hidden));
    assert!(r.end_session);
    assert!(r.stopped);
    assert_eq!(r.finished, None);
    let r2 = react_to_event(true, PolledEvent::Empty);
    assert!(r2.sleep);
    assert_eq!(r2.finished, None);
    let r3 = react_to_event(true, PolledEvent::SessionStateChanged(XrSessionState::Ready));
    assert_eq!(r3.visibility, Some(Visibility::Visible));
    assert!(r3.begin_session);
    assert!(!r3.stopped);
    let r4 = react_to_event(false, PolledEvent::SessionStateChanged(XrSessionState::Ready));
    assert_eq!(r4.visibility, None);
    assert!(!r4.begin_session);
}

#[test]
fn losing_the_session_ends_it() {
    for e in [
        PolledEvent::SessionStateChanged(XrSessionState::Exiting),
        PolledEvent::SessionStateChanged(XrSessionState::LossPending),
        PolledEvent::InstanceLossPending,
    ] {
        let r = react_to_event(false, e);
        assert!(r.session_end);
        assert_eq!(r.finished, Some(false));
    }
    let r = react_to_event(false, PolledEvent::Failed);
    assert!(!r.session_end);
    assert_eq!(r.finished, Some(false));
    assert_eq!(react_to_event(false, PolledEvent::Empty).finished, Some(true));
}

#[test]
fn focus_changes_visibility() {
    let r = react_to_event(false, PolledEvent::SessionStateChanged(XrSessionState::Focused));
    assert_eq!(r.visibility, Some(Visibility::Visible));
    let r = react_to_event(false, PolledEvent::SessionStateChanged(XrSessionState::Visible));
    assert_eq!(r.visibility, Some(Visibility::VisibleBlurred));
    let r = react_to_event(false, PolledEvent::Other);
    assert_eq!(r.visibility, None);
    assert_eq!(r.finished, None);
}

#[test]
fn quitting_waits_for_exit() {
    assert_eq!(react_while_quitting(PolledEvent::SessionStateChanged(XrSessionState::Stopping)), (true, false));
    assert_eq!(react_while_quitting(PolledEvent::SessionStateChanged(XrSessionState::Exiting)), (false, true));
    assert_eq!(react_while_quitting(PolledEvent::Failed), (false, true));
    assert_eq!(react_while_quitting(PolledEvent::Empty), (false, false));
}

#[test]
fn blend_modes_from_raw_values() {
    assert_eq!(environment_blend_mode(1), EnvironmentBlendMode::Opaque);
    assert_eq!(environment_blend_mode(2), EnvironmentBlendMode::Additive);
    assert_eq!(environment_blend_mode(3), EnvironmentBlendMode::AlphaBlend);
}

#[test]
fn the_bgra_format_is_picked() {
    assert_eq!(pick_format(&[28, 29, 87, 91]), DXGI_FORMAT_B8G8R8A8_UNORM);
}

#[test]
fn hand_names() {
    assert_eq!(hand_str(Handedness::Left), "left");
    assert_eq!(hand_str(Handedness::Right), "right");
}

#[test]
fn two_tracked_hands() {
    let v = initial_inputs();
    assert_eq!(v.len(), 2);
    assert_eq!(v[0].handedness, Handedness::Right);
    assert_eq!(v[0].id, InputId(0));
    assert_eq!(v[1].handedness, Handedness::Left);
    assert_eq!(v[1].id, InputId(1));
    assert_eq!(v[1].target_ray_mode, TargetRayMode::TrackedPointer);
}

#[test]
fn openxr_sessions_and_features() {
    assert!(supports_session(SessionMode::ImmersiveAR));
    assert!(supports_session(SessionMode::ImmersiveVR));
    assert!(!supports_session(SessionMode::Inline));
    assert!(supports_hands(true, true));
    assert!(!supports_hands(true, false));
    assert!(!supports_hands(false, true));
    assert_eq!(supported_features(true), vec!["local-floor", "hand-tracking"]);
    assert_eq!(supported_features(false), vec!["local-floor"]);
    assert!(needs_view_update(false, true));
    assert!(!needs_view_update(false, false));
}

#[test]
fn eyes_side_by_side() {
    let (l, r) = stereo_viewports(1440, 1600, 1400, 1500);
    assert_eq!(l, Viewport { x: 0, y: 0, width: 1440, height: 1600 });
    assert_eq!(r, Viewport { x: 1440, y: 0, width: 1400, height: 1500 });
}
