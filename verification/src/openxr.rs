use vstd::prelude::*;

use crate::events::Visibility;
use crate::input::Handedness;
use crate::input::InputId;
use crate::input::InputSource;
use crate::input::SelectEvent;
use crate::input::SelectKind;
use crate::input::TargetRayMode;
use crate::session::EnvironmentBlendMode;
use crate::session::SessionMode;
use crate::view::Viewport;

verus! {

/// The DXGI format of 8-bit BGRA colour that the OpenXR swapchain is made with.
pub const DXGI_FORMAT_B8G8R8A8_UNORM: u32 = 87;

/// The raw value of `XR_ENVIRONMENT_BLEND_MODE_OPAQUE`.
pub const XR_BLEND_MODE_OPAQUE: u32 = 1;

/// The raw value of `XR_ENVIRONMENT_BLEND_MODE_ADDITIVE`.
pub const XR_BLEND_MODE_ADDITIVE: u32 = 2;

/// The raw value of `XR_ENVIRONMENT_BLEND_MODE_ALPHA_BLEND`.
pub const XR_BLEND_MODE_ALPHA_BLEND: u32 = 3;

/// How many frames in a row the palm must face up before the menu opens,
/// less one.
pub const MENU_GESTURE_FRAMES: u8 = 60;

/// Where a select (or squeeze) gesture of a controller stands.
#[derive(Clone, Copy, Debug, PartialEq, Eq, Structural)]
pub enum ClickState {
    Clicking,
    /// it's clicking, but it lost tracking during the click,
    /// so we'll only fire a selectend event
    ClickingLost,
    Done,
}

impl ClickState {
    /// The state after one frame, and the select event that the frame
    /// reports, given whether the action is tracked and whether it is held.
    pub open spec fn spec_next(self, is_active: bool, pressed: bool) -> (ClickState, Option<
        SelectEvent,
    >) {
        if is_active {
            match (pressed, self) {
                (true, ClickState::Done) => (ClickState::Clicking, Some(SelectEvent::Start)),
                (false, ClickState::Clicking) => (ClickState::Done, Some(SelectEvent::Select)),
                (false, ClickState::ClickingLost) => (ClickState::Done, Some(SelectEvent::End)),
                _ => (self, None),
            }
        } else if self == ClickState::Clicking {
            (ClickState::ClickingLost, None)
        } else {
            (self, None)
        }
    }

    /// Advances the gesture by one frame, given whether the action is
    /// tracked and whether it is held. Answers whether the action is tracked,
    /// and the select event that the frame reports.
    pub fn update(&mut self, is_active: bool, pressed: bool) -> (r: (bool, Option<SelectEvent>))
        ensures
            r.0 == is_active,
            (*final(self), r.1) == old(self).spec_next(is_active, pressed),
            !is_active && *old(self) != ClickState::Clicking ==> *final(self) == *old(self) && r.1
                is None,
            *old(self) == ClickState::Done && *final(self) != ClickState::Done ==> is_active && pressed,
    {
        let event = if is_active {
            match (pressed, *self) {
                (true, ClickState::Done) => {
                    *self = ClickState::Clicking;
                    Some(SelectEvent::Start)
                },
                (false, ClickState::Clicking) => {
                    *self = ClickState::Done;
                    Some(SelectEvent::Select)
                },
                (false, ClickState::ClickingLost) => {
                    *self = ClickState::Done;
                    Some(SelectEvent::End)
                },
                _ => None,
            }
        } else if *self == ClickState::Clicking {
            *self = ClickState::ClickingLost;
            None
        } else {
            None
        };
        (is_active, event)
    }
}

/// A gesture starts only when none is under way, and a gesture ends (as a
/// select or as an end) only when one is under way; after a start one is under
/// way, and after an end none is.
pub proof fn lemma_click_events_alternate(s: ClickState, is_active: bool, pressed: bool)
    ensures
        s.spec_next(is_active, pressed).1 == Some(SelectEvent::Start) ==> {
            &&& s == ClickState::Done
            &&& s.spec_next(is_active, pressed).0 == ClickState::Clicking
        },
        s.spec_next(is_active, pressed).1 == Some(SelectEvent::Select) ==> {
            &&& s == ClickState::Clicking
            &&& s.spec_next(is_active, pressed).0 == ClickState::Done
        },
        s.spec_next(is_active, pressed).1 == Some(SelectEvent::End) ==> {
            &&& s == ClickState::ClickingLost
            &&& s.spec_next(is_active, pressed).0 == ClickState::Done
        },
        s == ClickState::Done ==> s.spec_next(is_active, pressed).0 != ClickState::ClickingLost,
{
}

/// While an action is not tracked, a gesture that is not under way stays as
/// it is and reports nothing; and a gesture starts only on a tracked press,
/// so no select is ever reported that was not pressed.
pub proof fn lemma_untracked_frames_keep_state(s: ClickState, is_active: bool, pressed: bool)
    ensures
        s != ClickState::Clicking ==> s.spec_next(false, pressed) == (s, None::<SelectEvent>),
        s == ClickState::Done && s.spec_next(is_active, pressed).0 != ClickState::Done ==> is_active
            && pressed,
        s.spec_next(is_active, pressed).1 is Some ==> is_active,
        s.spec_next(is_active, pressed).1 == Some(SelectEvent::Start) ==> pressed,
        s.spec_next(is_active, pressed).1 == Some(SelectEvent::Select) ==> !pressed,
{
}

/// A tracked press with no gesture under way starts one; a tracked release
/// ends it with a select, or with an end when tracking was lost on the way;
/// holding on, or staying released, changes nothing.
pub proof fn lemma_tracked_click_transitions(s: ClickState)
    ensures
        ClickState::Done.spec_next(true, true) == (ClickState::Clicking, Some(SelectEvent::Start)),
        ClickState::Clicking.spec_next(true, false) == (ClickState::Done, Some(SelectEvent::Select)),
        ClickState::ClickingLost.spec_next(true, false) == (ClickState::Done, Some(SelectEvent::End)),
        ClickState::Done.spec_next(true, false) == (ClickState::Done, None::<SelectEvent>),
        ClickState::Clicking.spec_next(true, true) == (ClickState::Clicking, None::<SelectEvent>),
        ClickState::ClickingLost.spec_next(true, true) == (ClickState::ClickingLost, None::<SelectEvent>),
        ClickState::Clicking.spec_next(false, true) == (ClickState::ClickingLost, None::<SelectEvent>),
{
}

/// A gesture that loses tracking while held ends with an end event, not a
/// select: losing tracking then letting go reports nothing, then an end.
pub proof fn lemma_lost_click_ends(pressed: bool)
    ensures
        ClickState::Clicking.spec_next(false, pressed) == (ClickState::ClickingLost, None::<
            SelectEvent,
        >),
        ClickState::ClickingLost.spec_next(true, false) == (ClickState::Done, Some(
            SelectEvent::End,
        )),
{
}

/// Counts the frames in a row in which the palm of a hand faces up; the menu
/// gesture is made when that lasts long enough.
#[derive(Clone, Copy, Debug, PartialEq, Eq, Structural)]
pub struct MenuGesture {
    pub sustain: u8,
}

impl MenuGesture {
    pub open spec fn wf(self) -> bool {
        self.sustain <= MENU_GESTURE_FRAMES
    }

    /// The count after one frame, and whether that frame makes the gesture.
    /// `palm_up` is `None` when the grip is not tracked.
    pub open spec fn spec_next(self, palm_up: Option<bool>) -> (MenuGesture, bool) {
        match palm_up {
            Some(true) => if self.sustain + 1 > MENU_GESTURE_FRAMES {
                (MenuGesture { sustain: 0 }, true)
            } else {
                (MenuGesture { sustain: (self.sustain + 1) as u8 }, false)
            },
            _ => (MenuGesture { sustain: 0 }, false),
        }
    }

    /// No frame counted yet.
    pub fn new() -> (g: MenuGesture)
        ensures
            g.sustain == 0,
            g.wf(),
    {
        MenuGesture { sustain: 0 }
    }

    /// Counts one frame, and answers whether it makes the menu gesture.
    pub fn update(&mut self, palm_up: Option<bool>) -> (selected: bool)
        requires
            old(self).wf(),
        ensures
            (*final(self), selected) == old(self).spec_next(palm_up),
            final(self).wf(),
    {
        match palm_up {
            Some(true) => {
                self.sustain = self.sustain + 1;
                if self.sustain > MENU_GESTURE_FRAMES {
                    self.sustain = 0;
                    true
                } else {
                    false
                }
            },
            _ => {
                self.sustain = 0;
                false
            },
        }
    }
}

/// The state after `n` frames with the palm up, from `g`, and whether the
/// last of them made the gesture.
pub open spec fn palm_up_frames(g: MenuGesture, n: nat) -> (MenuGesture, bool)
    decreases n,
{
    if n == 0 {
        (g, false)
    } else {
        palm_up_frames(g, (n - 1) as nat).0.spec_next(Some(true))
    }
}

/// From no count, the menu gesture is made on the 61st frame in a row with
/// the palm up, and not before; a frame without it starts the count over.
pub proof fn lemma_menu_after_sustained_palm(n: nat)
    requires
        n <= MENU_GESTURE_FRAMES + 1,
    ensures
        n <= MENU_GESTURE_FRAMES ==> palm_up_frames(MenuGesture { sustain: 0 }, n) == (
        MenuGesture { sustain: n as u8 }, false),
        n == MENU_GESTURE_FRAMES + 1 ==> palm_up_frames(MenuGesture { sustain: 0 }, n).1,
        forall|g: MenuGesture, p: Option<bool>| p != Some(true) ==> #[trigger] g.spec_next(p) == (
        MenuGesture { sustain: 0 }, false),
    decreases n,
{
    if n > 0 {
        lemma_menu_after_sustained_palm((n - 1) as nat);
    }
}

/// What one frame of a hand reports: its select and squeeze events, and
/// whether it made the menu gesture.
#[derive(Clone, Copy, Debug, PartialEq, Eq, Structural)]
pub struct HandReport {
    pub select: Option<SelectEvent>,
    pub squeeze: Option<SelectEvent>,
    pub menu_selected: bool,
    /// Whether the select action is tracked and held.
    pub pressed: bool,
    /// Whether the squeeze action is tracked and held.
    pub squeezed: bool,
}

/// The gesture state of one hand of an OpenXR device.
#[derive(Clone, Copy, Debug, PartialEq, Eq, Structural)]
pub struct HandInputState {
    pub click_state: ClickState,
    pub squeeze_state: ClickState,
    pub menu: MenuGesture,
}

impl HandInputState {
    /// No gesture under way.
    pub fn new() -> (h: HandInputState)
        ensures
            h.click_state == ClickState::Done,
            h.squeeze_state == ClickState::Done,
            h.menu.sustain == 0,
            h.menu.wf(),
    {
        HandInputState {
            click_state: ClickState::Done,
            squeeze_state: ClickState::Done,
            menu: MenuGesture::new(),
        }
    }

    /// Advances the hand by one frame, given the state of its select and
    /// squeeze actions and whether its palm faces up (`None` when its grip
    /// is not tracked).
    pub fn frame(
        &mut self,
        click_active: bool,
        click_held: bool,
        squeeze_active: bool,
        squeeze_held: bool,
        palm_up: Option<bool>,
    ) -> (r: HandReport)
        requires
            old(self).menu.wf(),
        ensures
            final(self).menu.wf(),
            (final(self).menu, r.menu_selected) == old(self).menu.spec_next(palm_up),
            (final(self).click_state, r.select) == old(self).click_state.spec_next(
                click_active,
                click_held,
            ),
            (final(self).squeeze_state, r.squeeze) == old(self).squeeze_state.spec_next(
                squeeze_active,
                squeeze_held,
            ),
            r.pressed == (click_active && click_held),
            r.squeezed == (squeeze_active && squeeze_held),
    {
        let menu_selected = self.menu.update(palm_up);
        let (click_is_active, select) = self.click_state.update(click_active, click_held);
        let (squeeze_is_active, squeeze) = self.squeeze_state.update(squeeze_active, squeeze_held);
        HandReport {
            select,
            squeeze,
            menu_selected,
            pressed: click_is_active && click_held,
            squeezed: squeeze_is_active && squeeze_held,
        }
    }
}

/// What the context menu answered when it was polled.
#[derive(Clone, Copy, Debug, PartialEq, Eq, Structural)]
pub enum ContextMenuResult {
    /// Session should exit
    ExitSession,
    /// Dialog was dismissed
    Dismissed,
    /// User has not acted on dialog
    Pending,
}

/// What to do with the context menu before a frame: whether to quit the
/// session (and give no frame), and whether the menu stays open.
pub fn after_menu_poll(result: ContextMenuResult) -> (r: (bool, bool))
    ensures
        r.0 == (result == ContextMenuResult::ExitSession),
        r.1 == (result == ContextMenuResult::Pending || result == ContextMenuResult::ExitSession),
{
    match result {
        ContextMenuResult::ExitSession => (true, true),
        ContextMenuResult::Dismissed => (false, false),
        ContextMenuResult::Pending => (false, true),
    }
}

/// What a frame of an OpenXR device does with its hands' reports: whether
/// it opens the context menu, whether it hides the inputs, and the select
/// events that it reports, in order.
pub struct FrameDecision {
    pub open_menu: bool,
    pub hide_inputs: bool,
    pub events: Vec<(InputId, SelectKind, SelectEvent)>,
}

/// The events that the reports of the right hand (input 0) and of the left
/// hand (input 1) give, in that order: select then squeeze for each hand.
pub open spec fn hand_events(right: HandReport, left: HandReport) -> Seq<
    (InputId, SelectKind, SelectEvent),
> {
    opt_event(InputId(0), SelectKind::Select, right.select) + opt_event(
        InputId(0),
        SelectKind::Squeeze,
        right.squeeze,
    ) + opt_event(InputId(1), SelectKind::Select, left.select) + opt_event(
        InputId(1),
        SelectKind::Squeeze,
        left.squeeze,
    )
}

pub open spec fn opt_event(id: InputId, kind: SelectKind, e: Option<SelectEvent>) -> Seq<
    (InputId, SelectKind, SelectEvent),
> {
    match e {
        Some(e) => seq![(id, kind, e)],
        None => Seq::empty(),
    }
}

/// How many of the four events a frame's hand reports can give are there.
pub open spec fn event_count(right: HandReport, left: HandReport) -> nat {
    (if right.select is Some { 1nat } else { 0nat }) + (if right.squeeze is Some { 1nat } else { 0nat })
        + (if left.select is Some { 1nat } else { 0nat }) + (if left.squeeze is Some { 1nat } else { 0nat })
}

/// The right hand is input 0 and the left hand input 1; a hand's select
/// event is reported with kind `Select` and its squeeze event with kind
/// `Squeeze`. Every event that a hand reports is listed, and nothing else.
pub proof fn lemma_hand_events_kinds(right: HandReport, left: HandReport)
    ensures
        right.select matches Some(e) ==> hand_events(right, left).contains(
            (InputId(0), SelectKind::Select, e),
        ),
        right.squeeze matches Some(e) ==> hand_events(right, left).contains(
            (InputId(0), SelectKind::Squeeze, e),
        ),
        left.select matches Some(e) ==> hand_events(right, left).contains(
            (InputId(1), SelectKind::Select, e),
        ),
        left.squeeze matches Some(e) ==> hand_events(right, left).contains(
            (InputId(1), SelectKind::Squeeze, e),
        ),
        forall|i: int|
            0 <= i < hand_events(right, left).len() ==> {
                let (id, kind, e) = #[trigger] hand_events(right, left)[i];
                ||| id == InputId(0) && kind == SelectKind::Select && right.select == Some(e)
                ||| id == InputId(0) && kind == SelectKind::Squeeze && right.squeeze == Some(e)
                ||| id == InputId(1) && kind == SelectKind::Select && left.select == Some(e)
                ||| id == InputId(1) && kind == SelectKind::Squeeze && left.squeeze == Some(e)
            },
        hand_events(right, left).len() == event_count(right, left),
{
    let a = opt_event(InputId(0), SelectKind::Select, right.select);
    let b = opt_event(InputId(0), SelectKind::Squeeze, right.squeeze);
    let c = opt_event(InputId(1), SelectKind::Select, left.select);
    let d = opt_event(InputId(1), SelectKind::Squeeze, left.squeeze);
    let all = hand_events(right, left);
    assert(all == a + b + c + d);
    let la = a.len() as int;
    let lb = b.len() as int;
    let lc = c.len() as int;
    if let Some(e) = right.select {
        assert(all[0] == (InputId(0), SelectKind::Select, e));
    }
    if let Some(e) = right.squeeze {
        assert(all[la] == (InputId(0), SelectKind::Squeeze, e));
    }
    if let Some(e) = left.select {
        assert(all[la + lb] == (InputId(1), SelectKind::Select, e));
    }
    if let Some(e) = left.squeeze {
        assert(all[la + lb + lc] == (InputId(1), SelectKind::Squeeze, e));
    }
    assert forall|i: int| 0 <= i < all.len() implies {
        let (id, kind, e) = #[trigger] all[i];
        ||| id == InputId(0) && kind == SelectKind::Select && right.select == Some(e)
        ||| id == InputId(0) && kind == SelectKind::Squeeze && right.squeeze == Some(e)
        ||| id == InputId(1) && kind == SelectKind::Select && left.select == Some(e)
        ||| id == InputId(1) && kind == SelectKind::Squeeze && left.squeeze == Some(e)
    } by {
        if i < la {
            assert(all[i] == a[i]);
        } else if i < la + lb {
            assert(all[i] == b[i - la]);
        } else if i < la + lb + lc {
            assert(all[i] == c[i - la - lb]);
        } else {
            assert(all[i] == d[i - la - lb - lc]);
        }
    }
}

fn push_event(
    events: &mut Vec<(InputId, SelectKind, SelectEvent)>,
    id: InputId,
    kind: SelectKind,
    e: Option<SelectEvent>,
)
    ensures
        final(events)@ == old(events)@ + opt_event(id, kind, e),
{
    match e {
        Some(e) => {
            events.push((id, kind, e));
        },
        None => {},
    }
    assert(events@ =~= old(events)@ + opt_event(id, kind, e));
}

/// Decides what a frame does with the hands' reports, given whether the
/// context menu is open. The menu opens when either hand made the menu
/// gesture and it is not open; while it is open, inputs are hidden and no
/// select event is reported.
pub fn frame_decision(menu_open: bool, right: HandReport, left: HandReport) -> (d: FrameDecision)
    ensures
        d.open_menu == ((left.menu_selected || right.menu_selected) && !menu_open),
        d.hide_inputs == (!d.open_menu && menu_open),
        d.hide_inputs ==> d.events@ == Seq::<(InputId, SelectKind, SelectEvent)>::empty(),
        !d.hide_inputs ==> d.events@ == hand_events(right, left),
        !d.hide_inputs && left.select is Some ==> d.events@.contains(
            (InputId(1), SelectKind::Select, left.select->0),
        ),
        !d.hide_inputs && left.squeeze is Some ==> d.events@.contains(
            (InputId(1), SelectKind::Squeeze, left.squeeze->0),
        ),
        !d.hide_inputs && right.select is Some ==> d.events@.contains(
            (InputId(0), SelectKind::Select, right.select->0),
        ),
        !d.hide_inputs && right.squeeze is Some ==> d.events@.contains(
            (InputId(0), SelectKind::Squeeze, right.squeeze->0),
        ),
        !d.hide_inputs ==> d.events@.len() == event_count(right, left),
{
    let open_menu = (left.menu_selected || right.menu_selected) && !menu_open;
    let hide_inputs = !open_menu && menu_open;
    let mut events = Vec::new();
    if !hide_inputs {
        push_event(&mut events, InputId(0), SelectKind::Select, right.select);
        push_event(&mut events, InputId(0), SelectKind::Squeeze, right.squeeze);
        push_event(&mut events, InputId(1), SelectKind::Select, left.select);
        push_event(&mut events, InputId(1), SelectKind::Squeeze, left.squeeze);
        assert(events@ =~= hand_events(right, left));
        proof {
            lemma_hand_events_kinds(right, left);
        }
    }
    FrameDecision { open_menu, hide_inputs, events }
}

/// The states of an OpenXR session that the device reacts to.
#[derive(Clone, Copy, Debug, PartialEq, Eq, Structural)]
pub enum XrSessionState {
    Ready,
    Visible,
    Focused,
    Stopping,
    LossPending,
    Exiting,
    /// Any other state
    Other,
}

/// The outcome of polling the OpenXR instance for an event.
#[derive(Clone, Copy, Debug, PartialEq, Eq, Structural)]
pub enum PolledEvent {
    /// Polling failed
    Failed,
    SessionStateChanged(XrSessionState),
    InstanceLossPending,
    /// Any other event
    Other,
    /// No event is waiting
    Empty,
}

/// How an OpenXR device reacts to one polled event.
#[derive(Clone, Copy, Debug, PartialEq, Eq, Structural)]
pub struct EventReaction {
    /// The visibility change to report, if any.
    pub visibility: Option<Visibility>,
    /// Whether to report that the session ended.
    pub session_end: bool,
    /// Whether to end the OpenXR session.
    pub end_session: bool,
    /// Whether to begin the OpenXR session again.
    pub begin_session: bool,
    /// Whether to wait a while before polling again.
    pub sleep: bool,
    /// Whether the session is stopped after this event.
    pub stopped: bool,
    /// `Some(running)` when polling is over, with whether the session still runs.
    pub finished: Option<bool>,
}

/// The reaction that `react_to_event` gives.
pub open spec fn spec_reaction(stopped: bool, event: PolledEvent) -> EventReaction {
    let none = EventReaction {
        visibility: None,
        session_end: false,
        end_session: false,
        begin_session: false,
        sleep: false,
        stopped,
        finished: None,
    };
    match event {
        PolledEvent::Failed => EventReaction { finished: Some(false), ..none },
        PolledEvent::SessionStateChanged(state) => match state {
            XrSessionState::Exiting | XrSessionState::LossPending => EventReaction {
                session_end: true,
                finished: Some(false),
                ..none
            },
            XrSessionState::Stopping => EventReaction {
                visibility: Some(Visibility::Hidden),
                end_session: true,
                stopped: true,
                ..none
            },
            XrSessionState::Ready => if stopped {
                EventReaction {
                    visibility: Some(Visibility::Visible),
                    begin_session: true,
                    stopped: false,
                    ..none
                }
            } else {
                none
            },
            XrSessionState::Focused => EventReaction {
                visibility: Some(Visibility::Visible),
                ..none
            },
            XrSessionState::Visible => EventReaction {
                visibility: Some(Visibility::VisibleBlurred),
                ..none
            },
            XrSessionState::Other => none,
        },
        PolledEvent::InstanceLossPending => EventReaction {
            session_end: true,
            finished: Some(false),
            ..none
        },
        PolledEvent::Other => none,
        PolledEvent::Empty => if stopped {
            EventReaction { sleep: true, ..none }
        } else {
            EventReaction { finished: Some(true), ..none }
        },
    }
}

/// Decides how an OpenXR device reacts to a polled event, given whether its
/// session is stopped. A stopped session waits for the runtime to make it
/// ready again; a lost or exiting one ends.
pub fn react_to_event(stopped: bool, event: PolledEvent) -> (r: EventReaction)
    ensures
        r == spec_reaction(stopped, event),
        r.stopped == (if event == PolledEvent::SessionStateChanged(XrSessionState::Stopping) {
            true
        } else if event == PolledEvent::SessionStateChanged(XrSessionState::Ready) {
            false
        } else {
            stopped
        }),
{
    let none = EventReaction {
        visibility: None,
        session_end: false,
        end_session: false,
        begin_session: false,
        sleep: false,
        stopped,
        finished: None,
    };
    match event {
        PolledEvent::Failed => EventReaction { finished: Some(false), ..none },
        PolledEvent::SessionStateChanged(state) => match state {
            XrSessionState::Exiting | XrSessionState::LossPending => EventReaction {
                session_end: true,
                finished: Some(false),
                ..none
            },
            XrSessionState::Stopping => EventReaction {
                visibility: Some(Visibility::Hidden),
                end_session: true,
                stopped: true,
                ..none
            },
            XrSessionState::Ready => if stopped {
                EventReaction {
                    visibility: Some(Visibility::Visible),
                    begin_session: true,
                    stopped: false,
                    ..none
                }
            } else {
                none
            },
            XrSessionState::Focused => EventReaction {
                visibility: Some(Visibility::Visible),
                ..none
            },
            XrSessionState::Visible => EventReaction {
                visibility: Some(Visibility::VisibleBlurred),
                ..none
            },
            XrSessionState::Other => none,
        },
        PolledEvent::InstanceLossPending => EventReaction {
            session_end: true,
            finished: Some(false),
            ..none
        },
        PolledEvent::Other => none,
        PolledEvent::Empty => if stopped {
            EventReaction { sleep: true, ..none }
        } else {
            EventReaction { finished: Some(true), ..none }
        },
    }
}

/// A session that stops is hidden and stays stopped until the runtime says
/// it is ready, when it is shown again; polling ends with the session
/// running only when no event waits and it is not stopped.
pub proof fn lemma_stop_and_resume(stopped: bool, event: PolledEvent)
    ensures
        spec_reaction(false, PolledEvent::SessionStateChanged(XrSessionState::Stopping)).stopped,
        spec_reaction(true, PolledEvent::SessionStateChanged(XrSessionState::Ready)) == (
        EventReaction {
            visibility: Some(Visibility::Visible),
            session_end: false,
            end_session: false,
            begin_session: true,
            sleep: false,
            stopped: false,
            finished: None,
        }),
        spec_reaction(stopped, event).finished == Some(true) <==> (!stopped && event
            == PolledEvent::Empty),
        spec_reaction(stopped, event).session_end ==> spec_reaction(stopped, event).finished
            == Some(false),
        spec_reaction(stopped, event).begin_session ==> stopped && !spec_reaction(
            stopped,
            event,
        ).stopped,
{
}

/// Only a Stopping state change stops the session, and only a Ready state
/// change makes it run again; every other event leaves it as it was.
pub proof fn lemma_only_stopping_and_ready_change_stopped(stopped: bool, event: PolledEvent)
    ensures
        event == PolledEvent::SessionStateChanged(XrSessionState::Stopping) ==> spec_reaction(
            stopped,
            event,
        ).stopped,
        event == PolledEvent::SessionStateChanged(XrSessionState::Ready) ==> !spec_reaction(
            stopped,
            event,
        ).stopped,
        event != PolledEvent::SessionStateChanged(XrSessionState::Stopping) && event
            != PolledEvent::SessionStateChanged(XrSessionState::Ready) ==> spec_reaction(
            stopped,
            event,
        ).stopped == stopped,
        event == PolledEvent::SessionStateChanged(XrSessionState::Visible) ==> spec_reaction(
            stopped,
            event,
        ).visibility == Some(Visibility::VisibleBlurred),
        event == PolledEvent::SessionStateChanged(XrSessionState::Focused) ==> spec_reaction(
            stopped,
            event,
        ).visibility == Some(Visibility::Visible),
{
}

/// Polling ends with the session gone on a failed poll, a lost instance,
/// or a session that exits or is about to be lost, and only then; the page
/// is told the session ended on all of these but a failed poll.
pub proof fn lemma_polling_ends_on_loss(stopped: bool, event: PolledEvent)
    ensures
        spec_reaction(stopped, event).finished == Some(false) <==> (event == PolledEvent::Failed
            || event == PolledEvent::InstanceLossPending || event == PolledEvent::SessionStateChanged(
            XrSessionState::Exiting,
        ) || event == PolledEvent::SessionStateChanged(XrSessionState::LossPending)),
        spec_reaction(stopped, event).session_end <==> (event == PolledEvent::InstanceLossPending
            || event == PolledEvent::SessionStateChanged(XrSessionState::Exiting) || event
            == PolledEvent::SessionStateChanged(XrSessionState::LossPending)),
        spec_reaction(stopped, event).sleep <==> (stopped && event == PolledEvent::Empty),
        spec_reaction(stopped, event).end_session <==> event == PolledEvent::SessionStateChanged(
            XrSessionState::Stopping,
        ),
{
}

/// How an OpenXR device reacts to a polled event while it quits: whether it
/// ends the OpenXR session, and whether quitting is done.
pub fn react_while_quitting(event: PolledEvent) -> (r: (bool, bool))
    ensures
        r.0 == (event == PolledEvent::SessionStateChanged(XrSessionState::Stopping)),
        r.1 == (event == PolledEvent::Failed || event == PolledEvent::SessionStateChanged(
            XrSessionState::Exiting,
        )),
{
    match event {
        PolledEvent::Failed => (false, true),
        PolledEvent::SessionStateChanged(XrSessionState::Exiting) => (false, true),
        PolledEvent::SessionStateChanged(XrSessionState::Stopping) => (true, false),
        _ => (false, false),
    }
}

/// The blend mode that an OpenXR blend mode stands for, given by its raw value.
pub fn environment_blend_mode(raw: u32) -> (m: EnvironmentBlendMode)
    requires
        raw == XR_BLEND_MODE_OPAQUE || raw == XR_BLEND_MODE_ALPHA_BLEND || raw
            == XR_BLEND_MODE_ADDITIVE,
    ensures
        raw == XR_BLEND_MODE_OPAQUE ==> m == EnvironmentBlendMode::Opaque,
        raw == XR_BLEND_MODE_ALPHA_BLEND ==> m == EnvironmentBlendMode::AlphaBlend,
        raw == XR_BLEND_MODE_ADDITIVE ==> m == EnvironmentBlendMode::Additive,
{
    if raw == XR_BLEND_MODE_OPAQUE {
        EnvironmentBlendMode::Opaque
    } else if raw == XR_BLEND_MODE_ALPHA_BLEND {
        EnvironmentBlendMode::AlphaBlend
    } else {
        EnvironmentBlendMode::Additive
    }
}

/// Picks the swapchain format among those that the runtime offers: 8-bit
/// BGRA, which must be among them.
pub fn pick_format(formats: &[u32]) -> (f: u32)
    requires
        formats@.contains(DXGI_FORMAT_B8G8R8A8_UNORM),
    ensures
        f == DXGI_FORMAT_B8G8R8A8_UNORM,
{
    let n = formats.len();
    let mut i: usize = 0;
    while i < n
        invariant
            0 <= i <= n,
            n == formats@.len(),
            forall|j: int| 0 <= j < i ==> formats@[j] != DXGI_FORMAT_B8G8R8A8_UNORM,
            formats@.contains(DXGI_FORMAT_B8G8R8A8_UNORM),
        decreases n - i,
    {
        if formats[i] == DXGI_FORMAT_B8G8R8A8_UNORM {
            return formats[i];
        }
        i += 1;
    }
    proof {
        let j = choose|j: int| 0 <= j < formats@.len() && formats@[j] == DXGI_FORMAT_B8G8R8A8_UNORM;
        assert(formats@[j] != DXGI_FORMAT_B8G8R8A8_UNORM);
    }
    DXGI_FORMAT_B8G8R8A8_UNORM
}

/// The name of a hand in the paths of OpenXR actions; a hand must be given.
pub fn hand_str(h: Handedness) -> (s: &'static str)
    requires
        h != Handedness::Neither,
    ensures
        h == Handedness::Right ==> s@ == "right"@,
        h == Handedness::Left ==> s@ == "left"@,
{
    match h {
        Handedness::Right => "right",
        _ => "left",
    }
}

/// The input sources of an OpenXR device: the right hand (input 0) and the
/// left hand (input 1), both tracked pointers.
pub fn initial_inputs() -> (v: Vec<InputSource>)
    ensures
        v@ == seq![
            InputSource {
                handedness: Handedness::Right,
                target_ray_mode: TargetRayMode::TrackedPointer,
                id: InputId(0),
            },
            InputSource {
                handedness: Handedness::Left,
                target_ray_mode: TargetRayMode::TrackedPointer,
                id: InputId(1),
            },
        ],
{
    let mut v = Vec::new();
    v.push(
        InputSource {
            handedness: Handedness::Right,
            target_ray_mode: TargetRayMode::TrackedPointer,
            id: InputId(0),
        },
    );
    v.push(
        InputSource {
            handedness: Handedness::Left,
            target_ray_mode: TargetRayMode::TrackedPointer,
            id: InputId(1),
        },
    );
    assert(v@ =~= seq![
        InputSource {
            handedness: Handedness::Right,
            target_ray_mode: TargetRayMode::TrackedPointer,
            id: InputId(0),
        },
        InputSource {
            handedness: Handedness::Left,
            target_ray_mode: TargetRayMode::TrackedPointer,
            id: InputId(1),
        },
    ]);
    v
}

/// An OpenXR device offers immersive sessions only.
pub fn supports_session(mode: SessionMode) -> (r: bool)
    ensures
        r == (mode == SessionMode::ImmersiveAR || mode == SessionMode::ImmersiveVR),
{
    mode == SessionMode::ImmersiveAR || mode == SessionMode::ImmersiveVR
}

/// Whether the instance is made with hand tracking: only when the page asks
/// for it and the runtime offers the extension.
pub fn supports_hands(needs_hands: bool, extension_available: bool) -> (r: bool)
    ensures
        r == (needs_hands && extension_available),
{
    needs_hands && extension_available
}

/// The features that an OpenXR device offers: the local floor, and hand
/// tracking when the instance supports it.
pub fn supported_features(supports_hands: bool) -> (v: Vec<&'static str>)
    ensures
        supports_hands ==> v@.len() == 2 && v@[0]@ == "local-floor"@ && v@[1]@ == "hand-tracking"@,
        !supports_hands ==> v@.len() == 1 && v@[0]@ == "local-floor"@,
{
    let mut v = Vec::new();
    v.push("local-floor");
    if supports_hands {
        v.push("hand-tracking");
    }
    v
}

/// The viewports of the two eyes, side by side, from the recommended sizes
/// of the two view configurations.
pub fn stereo_viewports(left_width: u32, left_height: u32, right_width: u32, right_height: u32) -> (r: (
    Viewport,
    Viewport,
))
    ensures
        r.0 == (Viewport { x: 0, y: 0, width: left_width as i32, height: left_height as i32 }),
        r.1 == (Viewport {
            x: left_width as i32,
            y: 0,
            width: right_width as i32,
            height: right_height as i32,
        }),
{
    let left = Viewport::new(0, 0, left_width as i32, left_height as i32);
    let right = Viewport::new(left_width as i32, 0, right_width as i32, right_height as i32);
    (left, right)
}

/// Whether a frame reports new views: when the clip planes changed or no
/// frame was seen before.
pub fn needs_view_update(clip_planes_changed: bool, first_frame: bool) -> (r: bool)
    ensures
        r == (clip_planes_changed || first_frame),
{
    clip_planes_changed || first_frame
}

} // verus!
