use vstd::prelude::*;

use crate::error::Error;
use crate::events::Event;
use crate::events::EventBuffer;
use crate::events::Visibility;
use crate::input::Handedness;
use crate::input::InputId;
use crate::input::InputSource;
use crate::input::SelectEvent;
use crate::input::SelectKind;
use crate::input::TargetRayMode;
use crate::session::SessionMode;
use crate::utils::ClipPlanes;
use crate::view::Viewport;

verus! {

/// The types of the values that a mock device carries but does not inspect:
/// poses, views, the mock world, the frames that select events carry, and the
/// destinations that events are sent to.
pub trait HeadlessTypes {
    /// The pose of the viewer in native space, if it is known.
    type ViewerOrigin;
    /// The transform from native space to the floor, if it is known.
    type FloorTransform;
    /// The views that the mock device renders.
    type Views;
    /// The mock world that hit tests are run against.
    type World;
    /// The pose of a target ray or a grip in native space, if it is known.
    type Pose: Copy;
    /// A clip plane distance.
    type Distance;
    /// A handle that ends a session from the device's side.
    type Quitter;
    /// The frame that a select event carries.
    type Frame;
    /// A destination that events are sent to.
    type Sink;
}

/// A discovery that connects mock devices on request of a test harness.
pub struct HeadlessMockDiscovery {}

impl HeadlessMockDiscovery {
    pub fn new() -> (d: HeadlessMockDiscovery)
        ensures
            d == (HeadlessMockDiscovery {}),
    {
        HeadlessMockDiscovery {}
    }
}

/// A message that a test harness sends to one input source of a mock device.
pub enum MockInputMsg<P> {
    SetHandedness(Handedness),
    SetTargetRayMode(TargetRayMode),
    SetPointerOrigin(P),
    SetGripOrigin(P),
    /// `SelectEvent::Select` here refers to a complete select gesture,
    /// not just its end.
    TriggerSelect(SelectKind, SelectEvent),
    Disconnect,
    Reconnect,
}

/// A message that a test harness sends to a mock device.
pub enum MockDeviceMsg<T: HeadlessTypes> {
    SetViewerOrigin(T::ViewerOrigin),
    /// Carries the transform from native space to the floor, that is, the
    /// inverse of the floor origin that the harness set.
    SetFloorOrigin(T::FloorTransform),
    SetViews(T::Views),
    /// A new input source, with its pointer and grip origins.
    AddInputSource(InputSource, T::Pose, T::Pose),
    MessageInputSource(InputId, MockInputMsg<T::Pose>),
    VisibilityChange(Visibility),
    SetWorld(T::World),
    ClearWorld,
    Disconnect,
}

/// What a mock device knows of one of its input sources.
pub struct InputInfo<P> {
    pub source: InputSource,
    pub active: bool,
    pub pointer: P,
    pub grip: P,
    /// Whether a select gesture has started and not ended.
    pub clicking: bool,
}

/// An event for every session that carries no frame.
#[derive(Clone, Copy, Debug, PartialEq, Eq, Structural)]
pub enum Notice {
    AddInput(InputSource),
    RemoveInput(InputId),
    UpdateInput(InputId, InputSource),
    VisibilityChange(Visibility),
    SessionEnd,
}

impl Notice {
    pub open spec fn spec_event<F>(self) -> Event<F> {
        match self {
            Notice::AddInput(s) => Event::AddInput(s),
            Notice::RemoveInput(id) => Event::RemoveInput(id),
            Notice::UpdateInput(id, s) => Event::UpdateInput(id, s),
            Notice::VisibilityChange(v) => Event::VisibilityChange(v),
            Notice::SessionEnd => Event::SessionEnd,
        }
    }

    /// The event that reports this notice.
    pub fn event<F>(&self) -> (e: Event<F>)
        ensures
            e == self.spec_event::<F>(),
    {
        match self {
            Notice::AddInput(s) => Event::AddInput(*s),
            Notice::RemoveInput(id) => Event::RemoveInput(*id),
            Notice::UpdateInput(id, s) => Event::UpdateInput(*id, *s),
            Notice::VisibilityChange(v) => Event::VisibilityChange(*v),
            Notice::SessionEnd => Event::SessionEnd,
        }
    }
}

/// What a mock device keeps for each of its sessions.
pub struct PerSessionData<T: HeadlessTypes> {
    pub id: u32,
    pub mode: SessionMode,
    pub clip_planes: ClipPlanes<T::Distance>,
    pub quitter: Option<T::Quitter>,
    pub events: EventBuffer<Event<T::Frame>, T::Sink>,
    /// Events that are to be sent to the destination, oldest first.
    pub outbox: Vec<Event<T::Frame>>,
    pub needs_vp_update: bool,
}

/// Whether `e` is a select event of input `id` and gesture `kind` in phase
/// `phase`, with a frame that `frame_for` can give for session `i`.
pub open spec fn is_select_for<F, G: Fn(usize) -> F>(
    e: Event<F>,
    id: InputId,
    kind: SelectKind,
    phase: SelectEvent,
    frame_for: G,
    i: usize,
) -> bool {
    match e {
        Event::Select(id2, kind2, phase2, frame) => {
            &&& id2 == id
            &&& kind2 == kind
            &&& phase2 == phase
            &&& call_ensures(frame_for, (i,), frame)
        },
        _ => false,
    }
}

impl<T: HeadlessTypes> PerSessionData<T> {
    /// The events of this session that have been reported and not yet sent,
    /// in the order in which they were reported.
    pub open spec fn queue(&self) -> Seq<Event<T::Frame>> {
        self.outbox@ + self.events.pending()
    }

    /// `self` differs from `old` only in the events that it has queued: with
    /// a destination, new events go to the outbox, to be sent there; without
    /// one, they stay in the buffer and the outbox is left as it was.
    pub open spec fn same_but_queue(&self, old: &Self) -> bool {
        &&& self.id == old.id
        &&& self.mode == old.mode
        &&& self.clip_planes == old.clip_planes
        &&& self.quitter == old.quitter
        &&& self.needs_vp_update == old.needs_vp_update
        &&& (old.events is Sink ==> self.events == old.events)
        &&& (old.events is Buffered ==> self.events is Buffered && self.outbox@ == old.outbox@)
    }

    /// `self` is `old` after the events `evs` were reported to it.
    pub open spec fn received(&self, old: &Self, evs: Seq<Event<T::Frame>>) -> bool {
        &&& self.queue() == old.queue() + evs
        &&& self.same_but_queue(old)
    }

    /// `self` is `old` after one select event for each phase of `phases`
    /// was reported to it, as session `i`.
    pub open spec fn received_selects<G: Fn(usize) -> T::Frame>(
        &self,
        old: &Self,
        id: InputId,
        kind: SelectKind,
        phases: Seq<SelectEvent>,
        frame_for: G,
        i: usize,
    ) -> bool {
        &&& self.same_but_queue(old)
        &&& self.queue().len() == old.queue().len() + phases.len()
        &&& self.queue().subrange(0, old.queue().len() as int) == old.queue()
        &&& forall|k: int|
            0 <= k < phases.len() ==> is_select_for(
                #[trigger] self.queue()[old.queue().len() + k],
                id,
                kind,
                phases[k],
                frame_for,
                i,
            )
    }

    /// A new session with no event and no destination.
    pub fn new(id: u32, mode: SessionMode, clip_planes: ClipPlanes<T::Distance>) -> (s: Self)
        ensures
            s.id == id,
            s.mode == mode,
            s.clip_planes == clip_planes,
            s.quitter is None,
            s.events is Buffered,
            s.queue() == Seq::<Event<T::Frame>>::empty(),
            !s.needs_vp_update,
    {
        let s = PerSessionData {
            id,
            mode,
            clip_planes,
            quitter: None,
            events: EventBuffer::new(),
            outbox: Vec::new(),
            needs_vp_update: false,
        };
        assert(s.queue() =~= Seq::<Event<T::Frame>>::empty());
        s
    }

    /// Reports an event to this session.
    pub fn deliver(&mut self, event: Event<T::Frame>)
        ensures
            final(self).received(old(self), seq![event]),
    {
        let ghost before = self.queue();
        match self.events.callback(event) {
            Some(e) => {
                self.outbox.push(e);
            },
            None => {},
        }
        assert(self.queue() =~= before + seq![event]);
    }

    /// Sets the destination of this session's events. The events that were
    /// waiting for it stay queued, in their order, to be sent there.
    pub fn set_event_dest(&mut self, dest: T::Sink)
        ensures
            final(self).events == EventBuffer::<Event<T::Frame>, T::Sink>::Sink(dest),
            final(self).queue() == old(self).queue(),
            final(self).id == old(self).id,
            final(self).mode == old(self).mode,
            final(self).clip_planes == old(self).clip_planes,
            final(self).quitter == old(self).quitter,
            final(self).needs_vp_update == old(self).needs_vp_update,
    {
        let ghost before = self.queue();
        let mut pending = self.events.upgrade(dest);
        self.outbox.append(&mut pending);
        assert(self.queue() =~= before);
    }

    /// Hands over the events that are to be sent to the destination, oldest
    /// first.
    pub fn take_outgoing(&mut self) -> (sent: Vec<Event<T::Frame>>)
        ensures
            sent@ == old(self).outbox@,
            final(self).outbox@ == Seq::<Event<T::Frame>>::empty(),
            final(self).events == old(self).events,
            final(self).id == old(self).id,
            final(self).mode == old(self).mode,
            final(self).clip_planes == old(self).clip_planes,
            final(self).quitter == old(self).quitter,
            final(self).needs_vp_update == old(self).needs_vp_update,
    {
        let mut sent = Vec::new();
        std::mem::swap(&mut sent, &mut self.outbox);
        sent
    }
}

/// Reports `notice` to every session, in order.
fn broadcast<T: HeadlessTypes>(sessions: &mut Vec<PerSessionData<T>>, notice: Notice)
    ensures
        final(sessions)@.len() == old(sessions)@.len(),
        forall|i: int|
            0 <= i < old(sessions)@.len() ==> (#[trigger] final(sessions)@[i]).received(
                &old(sessions)@[i],
                seq![notice.spec_event::<T::Frame>()],
            ),
{
    let ghost start = sessions@;
    let n = sessions.len();
    let mut i: usize = 0;
    while i < n
        invariant
            0 <= i <= n,
            n == start.len(),
            sessions@.len() == n,
            forall|j: int|
                0 <= j < i ==> (#[trigger] sessions@[j]).received(
                    &start[j],
                    seq![notice.spec_event::<T::Frame>()],
                ),
            forall|j: int| i <= j < n ==> #[trigger] sessions@[j] == start[j],
        decreases n - i,
    {
        sessions[i].deliver(notice.event());
        i += 1;
    }
}

/// Marks every session to be told of its new viewports.
fn mark_viewports_changed<T: HeadlessTypes>(sessions: &mut Vec<PerSessionData<T>>)
    ensures
        final(sessions)@.len() == old(sessions)@.len(),
        forall|i: int|
            0 <= i < old(sessions)@.len() ==> #[trigger] final(sessions)@[i] == (PerSessionData {
                needs_vp_update: true,
                ..old(sessions)@[i]
            }),
{
    let ghost start = sessions@;
    let n = sessions.len();
    let mut i: usize = 0;
    while i < n
        invariant
            0 <= i <= n,
            n == start.len(),
            sessions@.len() == n,
            forall|j: int|
                0 <= j < i ==> #[trigger] sessions@[j] == (PerSessionData {
                    needs_vp_update: true,
                    ..start[j]
                }),
            forall|j: int| i <= j < n ==> #[trigger] sessions@[j] == start[j],
        decreases n - i,
    {
        sessions[i].needs_vp_update = true;
        i += 1;
    }
}

/// Reports to every session a select event of input `id`, with the frame
/// that `frame_for` gives for that session.
fn broadcast_select<T: HeadlessTypes, G: Fn(usize) -> T::Frame>(
    sessions: &mut Vec<PerSessionData<T>>,
    id: InputId,
    kind: SelectKind,
    phase: SelectEvent,
    frame_for: &G,
)
    requires
        forall|i: usize| call_requires(*frame_for, (i,)),
    ensures
        final(sessions)@.len() == old(sessions)@.len(),
        forall|i: int|
            0 <= i < old(sessions)@.len() ==> (#[trigger] final(sessions)@[i]).received_selects(
                &old(sessions)@[i],
                id,
                kind,
                seq![phase],
                *frame_for,
                i as usize,
            ),
{
    let ghost start = sessions@;
    let n = sessions.len();
    let mut i: usize = 0;
    while i < n
        invariant
            0 <= i <= n,
            n == start.len(),
            sessions@.len() == n,
            forall|i: usize| call_requires(*frame_for, (i,)),
            forall|j: int|
                0 <= j < i ==> (#[trigger] sessions@[j]).received_selects(
                    &start[j],
                    id,
                    kind,
                    seq![phase],
                    *frame_for,
                    j as usize,
                ),
            forall|j: int| i <= j < n ==> #[trigger] sessions@[j] == start[j],
        decreases n - i,
    {
        let frame = frame_for(i);
        let ghost s0 = sessions@[i as int];
        sessions[i].deliver(Event::Select(id, kind, phase, frame));
        proof {
            let s1 = sessions@[i as int];
            assert(s1.queue() == s0.queue().push(Event::Select(id, kind, phase, frame)));
            assert(s1.queue().subrange(0, s0.queue().len() as int) =~= s0.queue());
            assert(s1.queue()[s0.queue().len() as int] == Event::<T::Frame>::Select(
                id,
                kind,
                phase,
                frame,
            ));
        }
        i += 1;
    }
}

/// The phases of the select events that a mock select gesture reports,
/// given whether a gesture was under way.
pub open spec fn select_phases(clicking: bool, event: SelectEvent) -> Seq<SelectEvent> {
    match event {
        SelectEvent::Start => seq![SelectEvent::Start],
        SelectEvent::End => if clicking {
            seq![SelectEvent::Select]
        } else {
            seq![SelectEvent::End]
        },
        SelectEvent::Select => seq![SelectEvent::Start, SelectEvent::Select],
    }
}

/// What an input source becomes after `msg`.
pub open spec fn updated_input<P>(info: InputInfo<P>, msg: MockInputMsg<P>) -> InputInfo<P> {
    match msg {
        MockInputMsg::SetHandedness(h) => InputInfo {
            source: InputSource { handedness: h, ..info.source },
            ..info
        },
        MockInputMsg::SetTargetRayMode(t) => InputInfo {
            source: InputSource { target_ray_mode: t, ..info.source },
            ..info
        },
        MockInputMsg::SetPointerOrigin(p) => InputInfo { pointer: p, ..info },
        MockInputMsg::SetGripOrigin(p) => InputInfo { grip: p, ..info },
        MockInputMsg::TriggerSelect(_, event) => if info.active {
            InputInfo { clicking: event == SelectEvent::Start, ..info }
        } else {
            info
        },
        MockInputMsg::Disconnect => if info.active {
            InputInfo { active: false, clicking: false, ..info }
        } else {
            info
        },
        MockInputMsg::Reconnect => if !info.active {
            InputInfo { active: true, ..info }
        } else {
            info
        },
    }
}

/// The notice that every session receives after input `id` got `msg`.
pub open spec fn input_notice<P>(info: InputInfo<P>, id: InputId, msg: MockInputMsg<P>) -> Option<
    Notice,
> {
    match msg {
        MockInputMsg::SetHandedness(_) => Some(
            Notice::UpdateInput(id, updated_input(info, msg).source),
        ),
        MockInputMsg::SetTargetRayMode(_) => Some(
            Notice::UpdateInput(id, updated_input(info, msg).source),
        ),
        MockInputMsg::Disconnect => if info.active {
            Some(Notice::RemoveInput(info.source.id))
        } else {
            None
        },
        MockInputMsg::Reconnect => if !info.active {
            Some(Notice::AddInput(info.source))
        } else {
            None
        },
        _ => None,
    }
}

/// The phases of the select events that every session receives after
/// input `id` got `msg`.
pub open spec fn input_selects<P>(info: InputInfo<P>, msg: MockInputMsg<P>) -> Seq<SelectEvent> {
    match msg {
        MockInputMsg::TriggerSelect(_, event) => if info.active {
            select_phases(info.clicking, event)
        } else {
            Seq::empty()
        },
        _ => Seq::empty(),
    }
}

/// The gesture that `msg` selects with, if it is a select.
pub open spec fn select_kind_of<P>(msg: MockInputMsg<P>) -> SelectKind {
    match msg {
        MockInputMsg::TriggerSelect(kind, _) => kind,
        _ => SelectKind::Select,
    }
}

/// Whether `k` is the first input source with id `id`.
pub open spec fn first_input_with<P>(inputs: Seq<InputInfo<P>>, id: InputId, k: int) -> bool {
    &&& 0 <= k < inputs.len()
    &&& inputs[k].source.id == id
    &&& forall|j: int| 0 <= j < k ==> inputs[j].source.id != id
}

/// What a mock device knows: the scene that a test harness set up, its
/// input sources and its sessions.
pub struct HeadlessDeviceData<T: HeadlessTypes> {
    pub floor_transform: T::FloorTransform,
    pub viewer_origin: T::ViewerOrigin,
    pub views: T::Views,
    pub needs_floor_update: bool,
    pub inputs: Vec<InputInfo<T::Pose>>,
    pub sessions: Vec<PerSessionData<T>>,
    pub disconnected: bool,
    pub world: Option<T::World>,
    pub next_id: u32,
}

impl<T: HeadlessTypes> HeadlessDeviceData<T> {
    /// Every session has an id below `next_id`, and the ids grow along the
    /// list, so that no two sessions share one.
    pub open spec fn wf(&self) -> bool {
        &&& forall|i: int| 0 <= i < self.sessions@.len() ==> #[trigger] self.sessions@[i].id < self.next_id
        &&& forall|i: int, j: int|
            0 <= i < j < self.sessions@.len() ==> #[trigger] self.sessions@[i].id
                < #[trigger] self.sessions@[j].id
    }

    /// `self` and `old` agree on everything but the inputs and the sessions.
    pub open spec fn same_scene(&self, old: &Self) -> bool {
        &&& self.floor_transform == old.floor_transform
        &&& self.viewer_origin == old.viewer_origin
        &&& self.views == old.views
        &&& self.needs_floor_update == old.needs_floor_update
        &&& self.disconnected == old.disconnected
        &&& self.world == old.world
        &&& self.next_id == old.next_id
    }

    /// Every session of `self` is the one of `old` after `notice`.
    pub open spec fn all_received(&self, old: &Self, notice: Notice) -> bool {
        &&& self.sessions@.len() == old.sessions@.len()
        &&& forall|i: int|
            0 <= i < old.sessions@.len() ==> (#[trigger] self.sessions@[i]).received(
                &old.sessions@[i],
                seq![notice.spec_event::<T::Frame>()],
            )
    }

    /// `self` is `old` after input `id` got `msg`.
    pub open spec fn input_msg_effect<G: Fn(usize) -> T::Frame>(
        &self,
        old: &Self,
        id: InputId,
        msg: MockInputMsg<T::Pose>,
        frame_for: G,
    ) -> bool {
        &&& self.same_scene(old)
        &&& self.sessions@.len() == old.sessions@.len()
        &&& (forall|j: int| 0 <= j < old.inputs@.len() ==> old.inputs@[j].source.id != id) ==> {
            &&& self.inputs@ == old.inputs@
            &&& self.sessions@ == old.sessions@
        }
        &&& forall|k: int|
            #![trigger old.inputs@[k]]
            first_input_with(old.inputs@, id, k) ==> {
                let info = old.inputs@[k];
                &&& self.inputs@ == old.inputs@.update(k, updated_input(info, msg))
                &&& (input_notice(info, id, msg) is None && input_selects(info, msg).len() == 0)
                    ==> self.sessions@ == old.sessions@
                &&& match input_notice(info, id, msg) {
                    Some(notice) => self.all_received(old, notice),
                    None => {
                        &&& self.sessions@.len() == old.sessions@.len()
                        &&& forall|i: int|
                            0 <= i < old.sessions@.len() ==> (#[trigger] self.sessions@[i]).received_selects(
                                &old.sessions@[i],
                                id,
                                select_kind_of(msg),
                                input_selects(info, msg),
                                frame_for,
                                i as usize,
                            )
                    },
                }
            }
    }

    /// A device with the given scene, no input source and no session.
    pub fn new(
        floor_transform: T::FloorTransform,
        viewer_origin: T::ViewerOrigin,
        views: T::Views,
        world: Option<T::World>,
    ) -> (d: Self)
        ensures
            d.wf(),
            d.floor_transform == floor_transform,
            d.viewer_origin == viewer_origin,
            d.views == views,
            d.world == world,
            !d.needs_floor_update,
            !d.disconnected,
            d.inputs@ == Seq::<InputInfo<T::Pose>>::empty(),
            d.sessions@ == Seq::<PerSessionData<T>>::empty(),
            d.next_id == 0,
    {
        HeadlessDeviceData {
            floor_transform,
            viewer_origin,
            views,
            needs_floor_update: false,
            inputs: Vec::new(),
            sessions: Vec::new(),
            disconnected: false,
            world,
            next_id: 0,
        }
    }

    /// The first input source with id `id`, if there is one.
    pub fn find_input(&self, id: InputId) -> (r: Option<usize>)
        ensures
            match r {
                Some(k) => first_input_with(self.inputs@, id, k as int),
                None => forall|j: int|
                    0 <= j < self.inputs@.len() ==> self.inputs@[j].source.id != id,
            },
    {
        let n = self.inputs.len();
        let mut k: usize = 0;
        while k < n
            invariant
                0 <= k <= n,
                n == self.inputs@.len(),
                forall|j: int| 0 <= j < k ==> self.inputs@[j].source.id != id,
            decreases n - k,
        {
            if self.inputs[k].source.id == id {
                return Some(k);
            }
            k += 1;
        }
        None
    }

    /// The first session with id `id`, if there is one.
    pub fn find_session(&self, id: u32) -> (r: Option<usize>)
        ensures
            match r {
                Some(k) => {
                    &&& k < self.sessions@.len()
                    &&& self.sessions@[k as int].id == id
                    &&& forall|j: int| 0 <= j < k ==> self.sessions@[j].id != id
                },
                None => forall|j: int| 0 <= j < self.sessions@.len() ==> self.sessions@[j].id != id,
            },
    {
        let n = self.sessions.len();
        let mut k: usize = 0;
        while k < n
            invariant
                0 <= k <= n,
                n == self.sessions@.len(),
                forall|j: int| 0 <= j < k ==> self.sessions@[j].id != id,
            decreases n - k,
        {
            if self.sessions[k].id == id {
                return Some(k);
            }
            k += 1;
        }
        None
    }

    /// Applies a message that the test harness sent to input `id`.
    pub fn handle_input_msg<G: Fn(usize) -> T::Frame>(
        &mut self,
        id: InputId,
        msg: MockInputMsg<T::Pose>,
        frame_for: &G,
    )
        requires
            forall|i: usize| call_requires(*frame_for, (i,)),
        ensures
            final(self).input_msg_effect(old(self), id, msg, *frame_for),
            old(self).wf() ==> final(self).wf(),
    {
        let ghost old_self = *self;
        let found = self.find_input(id);
        let k = match found {
            None => {
                return ;
            },
            Some(k) => k,
        };
        let ghost info = self.inputs@[k as int];
        match msg {
            MockInputMsg::SetHandedness(h) => {
                self.inputs[k].source.handedness = h;
                let source = self.inputs[k].source;
                broadcast(&mut self.sessions, Notice::UpdateInput(id, source));
            },
            MockInputMsg::SetTargetRayMode(t) => {
                self.inputs[k].source.target_ray_mode = t;
                let source = self.inputs[k].source;
                broadcast(&mut self.sessions, Notice::UpdateInput(id, source));
            },
            MockInputMsg::SetPointerOrigin(p) => {
                self.inputs[k].pointer = p;
            },
            MockInputMsg::SetGripOrigin(p) => {
                self.inputs[k].grip = p;
            },
            MockInputMsg::TriggerSelect(kind, event) => {
                if !self.inputs[k].active {
                    assert(self.inputs@ =~= old_self.inputs@.update(k as int, updated_input(info, msg)));
                    assert forall|i: int| 0 <= i < old_self.sessions@.len() implies (#[trigger] self.sessions@[i]).received_selects(
                        &old_self.sessions@[i],
                        id,
                        select_kind_of(msg),
                        input_selects(info, msg),
                        *frame_for,
                        i as usize,
                    ) by {
                        assert(self.sessions@[i].queue().subrange(
                            0,
                            old_self.sessions@[i].queue().len() as int,
                        ) =~= old_self.sessions@[i].queue());
                    }
                    return ;
                }
                let clicking = self.inputs[k].clicking;
                self.inputs[k].clicking = event == SelectEvent::Start;
                let ghost s0 = self.sessions@;
                match event {
                    SelectEvent::Start => {
                        broadcast_select(&mut self.sessions, id, kind, SelectEvent::Start, frame_for);
                    },
                    SelectEvent::End => {
                        if clicking {
                            broadcast_select(
                                &mut self.sessions,
                                id,
                                kind,
                                SelectEvent::Select,
                                frame_for,
                            );
                        } else {
                            broadcast_select(&mut self.sessions, id, kind, SelectEvent::End, frame_for);
                        }
                    },
                    SelectEvent::Select => {
                        broadcast_select(&mut self.sessions, id, kind, SelectEvent::Start, frame_for);
                        let ghost s1 = self.sessions@;
                        broadcast_select(
                            &mut self.sessions,
                            id,
                            kind,
                            SelectEvent::Select,
                            frame_for,
                        );
                        proof {
                            let s2 = self.sessions@;
                            let phases = seq![SelectEvent::Start, SelectEvent::Select];
                            assert forall|i: int| 0 <= i < s0.len() implies (#[trigger] s2[i]).received_selects(
                                &s0[i],
                                id,
                                kind,
                                phases,
                                *frame_for,
                                i as usize,
                            ) by {
                                assert(s1[i].received_selects(
                                    &s0[i],
                                    id,
                                    kind,
                                    seq![SelectEvent::Start],
                                    *frame_for,
                                    i as usize,
                                ));
                                assert(s2[i].received_selects(
                                    &s1[i],
                                    id,
                                    kind,
                                    seq![SelectEvent::Select],
                                    *frame_for,
                                    i as usize,
                                ));
                                let l0 = s0[i].queue().len() as int;
                                assert(s1[i].queue().len() == l0 + 1);
                                assert(s2[i].queue().subrange(0, l0) =~= s0[i].queue()) by {
                                    assert(s2[i].queue().subrange(0, l0) =~= s2[i].queue().subrange(
                                        0,
                                        l0 + 1,
                                    ).subrange(0, l0));
                                }
                                assert(is_select_for(
                                    s1[i].queue()[l0 + 0],
                                    id,
                                    kind,
                                    SelectEvent::Start,
                                    *frame_for,
                                    i as usize,
                                ));
                                assert(s2[i].queue()[l0 + 0] == s2[i].queue().subrange(
                                    0,
                                    l0 + 1,
                                )[l0 as int]);
                                assert(is_select_for(
                                    s2[i].queue()[(l0 + 1) + 0],
                                    id,
                                    kind,
                                    SelectEvent::Select,
                                    *frame_for,
                                    i as usize,
                                ));
                                assert forall|m: int| 0 <= m < phases.len() implies is_select_for(
                                    #[trigger] s2[i].queue()[l0 + m],
                                    id,
                                    kind,
                                    phases[m],
                                    *frame_for,
                                    i as usize,
                                ) by {
                                    if m == 0 {
                                    } else {
                                        assert(l0 + m == (l0 + 1) + 0);
                                    }
                                }
                            }
                        }
                    },
                }
            },
            MockInputMsg::Disconnect => {
                if self.inputs[k].active {
                    let source_id = self.inputs[k].source.id;
                    broadcast(&mut self.sessions, Notice::RemoveInput(source_id));
                    self.inputs[k].active = false;
                    self.inputs[k].clicking = false;
                }
            },
            MockInputMsg::Reconnect => {
                if !self.inputs[k].active {
                    let source = self.inputs[k].source;
                    broadcast(&mut self.sessions, Notice::AddInput(source));
                    self.inputs[k].active = true;
                }
            },
        }
        assert(self.inputs@ =~= old_self.inputs@.update(k as int, updated_input(info, msg)));
        proof {
            if input_notice(info, id, msg) is None && input_selects(info, msg).len() == 0 {
                assert forall|i: int| 0 <= i < old_self.sessions@.len() implies (#[trigger] self.sessions@[i]).received_selects(
                    &old_self.sessions@[i],
                    id,
                    select_kind_of(msg),
                    input_selects(info, msg),
                    *frame_for,
                    i as usize,
                ) by {
                    assert(self.sessions@[i].queue().subrange(
                        0,
                        old_self.sessions@[i].queue().len() as int,
                    ) =~= old_self.sessions@[i].queue());
                }
            }
        }
    }

    /// `self` is `old` after the harness sent `msg`.
    pub open spec fn msg_effect<G: Fn(usize) -> T::Frame>(
        &self,
        old: &Self,
        msg: MockDeviceMsg<T>,
        frame_for: G,
    ) -> bool {
        match msg {
            MockDeviceMsg::SetViewerOrigin(o) => *self == (HeadlessDeviceData {
                viewer_origin: o,
                ..*old
            }),
            MockDeviceMsg::SetFloorOrigin(f) => *self == (HeadlessDeviceData {
                floor_transform: f,
                needs_floor_update: true,
                ..*old
            }),
            MockDeviceMsg::SetViews(v) => {
                &&& self.views == v
                &&& self.floor_transform == old.floor_transform
                &&& self.viewer_origin == old.viewer_origin
                &&& self.needs_floor_update == old.needs_floor_update
                &&& self.disconnected == old.disconnected
                &&& self.world == old.world
                &&& self.next_id == old.next_id
                &&& self.inputs@ == old.inputs@
                &&& self.sessions@.len() == old.sessions@.len()
                &&& forall|i: int|
                    0 <= i < old.sessions@.len() ==> #[trigger] self.sessions@[i] == (
                    PerSessionData { needs_vp_update: true, ..old.sessions@[i] })
            },
            MockDeviceMsg::AddInputSource(source, pointer, grip) => {
                &&& self.same_scene(old)
                &&& self.inputs@ == old.inputs@.push(
                    InputInfo { source, active: true, pointer, grip, clicking: false },
                )
                &&& self.all_received(old, Notice::AddInput(source))
            },
            MockDeviceMsg::MessageInputSource(id, m) => self.input_msg_effect(
                old,
                id,
                m,
                frame_for,
            ),
            MockDeviceMsg::VisibilityChange(v) => {
                &&& self.same_scene(old)
                &&& self.inputs@ == old.inputs@
                &&& self.all_received(old, Notice::VisibilityChange(v))
            },
            MockDeviceMsg::SetWorld(w) => *self == (HeadlessDeviceData { world: Some(w), ..*old }),
            MockDeviceMsg::ClearWorld => *self == (HeadlessDeviceData { world: None, ..*old }),
            MockDeviceMsg::Disconnect => *self == (HeadlessDeviceData {
                disconnected: true,
                ..*old
            }),
        }
    }

    /// Applies a message of the test harness. Answers whether the device
    /// keeps listening: it stops after a disconnection.
    pub fn handle_msg<G: Fn(usize) -> T::Frame>(&mut self, msg: MockDeviceMsg<T>, frame_for: &G) -> (keep: bool)
        requires
            forall|i: usize| call_requires(*frame_for, (i,)),
        ensures
            keep == !(msg is Disconnect),
            final(self).msg_effect(old(self), msg, *frame_for),
            old(self).wf() ==> final(self).wf(),
    {
        let ghost old_self = *self;
        let keep = self.apply_msg(msg, frame_for);
        proof {
            if old_self.wf() {
                if msg is MessageInputSource {
                } else {
                    assert forall|i: int| 0 <= i < old_self.sessions@.len() implies #[trigger] self.sessions@[i].id
                        == old_self.sessions@[i].id by {
                        if msg is AddInputSource || msg is VisibilityChange {
                            assert(self.sessions@[i].same_but_queue(&old_self.sessions@[i]));
                        }
                    }
                    lemma_same_ids_wf(&old_self, self);
                }
            }
        }
        keep
    }

    fn apply_msg<G: Fn(usize) -> T::Frame>(&mut self, msg: MockDeviceMsg<T>, frame_for: &G) -> (keep: bool)
        requires
            forall|i: usize| call_requires(*frame_for, (i,)),
        ensures
            keep == !(msg is Disconnect),
            final(self).msg_effect(old(self), msg, *frame_for),
            old(self).wf() && msg is MessageInputSource ==> final(self).wf(),
            final(self).next_id == old(self).next_id,
            final(self).sessions@.len() == old(self).sessions@.len(),
    {
        match msg {
            MockDeviceMsg::SetViewerOrigin(o) => {
                self.viewer_origin = o;
            },
            MockDeviceMsg::SetFloorOrigin(f) => {
                self.floor_transform = f;
                self.needs_floor_update = true;
            },
            MockDeviceMsg::SetViews(v) => {
                self.views = v;
                mark_viewports_changed(&mut self.sessions);
            },
            MockDeviceMsg::AddInputSource(source, pointer, grip) => {
                self.inputs.push(InputInfo { source, active: true, pointer, grip, clicking: false });
                broadcast(&mut self.sessions, Notice::AddInput(source));
            },
            MockDeviceMsg::MessageInputSource(id, m) => {
                self.handle_input_msg(id, m, frame_for);
            },
            MockDeviceMsg::VisibilityChange(v) => {
                broadcast(&mut self.sessions, Notice::VisibilityChange(v));
            },
            MockDeviceMsg::SetWorld(w) => {
                self.world = Some(w);
            },
            MockDeviceMsg::ClearWorld => {
                self.world = None;
            },
            MockDeviceMsg::Disconnect => {
                self.disconnected = true;
                return false;
            },
        }
        true
    }

    /// The sessions to end when the device disconnects: the index of every
    /// session that has a quitter, each once, in order.
    pub fn sessions_to_quit(&self) -> (r: Vec<usize>)
        ensures
            forall|j: int| 0 <= j < r@.len() ==> #[trigger] r@[j] < self.sessions@.len()
                && self.sessions@[r@[j] as int].quitter is Some,
            forall|j: int, l: int| 0 <= j < l < r@.len() ==> #[trigger] r@[j] < #[trigger] r@[l],
            forall|k: int|
                0 <= k < self.sessions@.len() && (#[trigger] self.sessions@[k]).quitter is Some
                    ==> r@.contains(k as usize),
    {
        let mut r: Vec<usize> = Vec::new();
        let n = self.sessions.len();
        let mut i: usize = 0;
        while i < n
            invariant
                0 <= i <= n,
                n == self.sessions@.len(),
                forall|j: int| 0 <= j < r@.len() ==> #[trigger] r@[j] < i
                    && self.sessions@[r@[j] as int].quitter is Some,
                forall|j: int, l: int| 0 <= j < l < r@.len() ==> #[trigger] r@[j] < #[trigger] r@[l],
                forall|k: int|
                    0 <= k < i && (#[trigger] self.sessions@[k]).quitter is Some ==> r@.contains(
                        k as usize,
                    ),
            decreases n - i,
        {
            if self.sessions[i].quitter.is_some() {
                let ghost before = r@;
                r.push(i);
                proof {
                    assert forall|k: int|
                        0 <= k < i + 1 && (#[trigger] self.sessions@[k]).quitter is Some implies r@.contains(
                            k as usize,
                        ) by {
                        if k < i {
                            let j = choose|j: int| 0 <= j < before.len() && before[j] == k as usize;
                            assert(r@[j] == k as usize);
                        } else {
                            assert(r@[before.len() as int] == i);
                        }
                    }
                }
            }
            i += 1;
        }
        r
    }

    /// The input sources that are connected, in order, each with its id,
    /// pointer origin and grip origin.
    pub fn active_inputs(&self) -> (r: Vec<(InputId, T::Pose, T::Pose)>)
        ensures
            r@ == self.inputs@.filter_map(|i: InputInfo<T::Pose>| active_input_entry(i)),
    {
        let n = self.inputs.len();
        let mut r: Vec<(InputId, T::Pose, T::Pose)> = Vec::new();
        let mut k: usize = 0;
        while k < n
            invariant
                0 <= k <= n,
                n == self.inputs@.len(),
                r@ == self.inputs@.take(k as int).filter_map(
                    |i: InputInfo<T::Pose>| active_input_entry(i),
                ),
            decreases n - k,
        {
            proof {
                self.inputs@.lemma_filter_map_take_succ(
                    |i: InputInfo<T::Pose>| active_input_entry(i),
                    k as int,
                );
            }
            if self.inputs[k].active {
                let entry = (self.inputs[k].source.id, self.inputs[k].pointer, self.inputs[k].grip);
                r.push(entry);
            }
            k += 1;
        }
        assert(self.inputs@.take(n as int) =~= self.inputs@);
        r
    }

    /// Marks the session to be told of the floor and of its viewports on the
    /// next frame: answers, and clears, whether its viewports changed and
    /// whether the floor moved since the last frame.
    pub fn take_frame_flags(&mut self, id: u32) -> (r: (bool, bool))
        requires
            exists|k: int| first_session_with(old(self).sessions@, id, k),
        ensures
            forall|k: int|
                #![trigger old(self).sessions@[k]]
                first_session_with(old(self).sessions@, id, k) ==> {
                    &&& r.0 == old(self).sessions@[k].needs_vp_update
                    &&& final(self).sessions@ == old(self).sessions@.update(
                        k,
                        PerSessionData { needs_vp_update: false, ..old(self).sessions@[k] },
                    )
                },
            r.1 == old(self).needs_floor_update,
            !final(self).needs_floor_update,
            final(self).inputs@ == old(self).inputs@,
            final(self).floor_transform == old(self).floor_transform,
            final(self).viewer_origin == old(self).viewer_origin,
            final(self).views == old(self).views,
            final(self).disconnected == old(self).disconnected,
            final(self).world == old(self).world,
            final(self).next_id == old(self).next_id,
            old(self).wf() ==> final(self).wf(),
    {
        let k = self.session_index(id);
        let vp = self.sessions[k].needs_vp_update;
        self.sessions[k].needs_vp_update = false;
        let floor = self.needs_floor_update;
        self.needs_floor_update = false;
        (vp, floor)
    }

    /// The index of the first session with id `id`, which must exist.
    fn session_index(&self, id: u32) -> (k: usize)
        requires
            exists|k: int| first_session_with(self.sessions@, id, k),
        ensures
            first_session_with(self.sessions@, id, k as int),
    {
        match self.find_session(id) {
            Some(k) => k,
            None => {
                proof {
                    let k = choose|k: int| first_session_with(self.sessions@, id, k);
                    assert(self.sessions@[k].id == id);
                }
                0
            },
        }
    }

    /// Sets the destination of session `id`'s events; the events that were
    /// waiting for one stay queued for it, in order.
    pub fn set_event_dest(&mut self, id: u32, dest: T::Sink)
        requires
            exists|k: int| first_session_with(old(self).sessions@, id, k),
        ensures
            forall|k: int|
                #![trigger old(self).sessions@[k]]
                first_session_with(old(self).sessions@, id, k) ==> {
                    let s = final(self).sessions@[k];
                    let o = old(self).sessions@[k];
                    &&& final(self).sessions@ == old(self).sessions@.update(k, s)
                    &&& s.events == EventBuffer::<Event<T::Frame>, T::Sink>::Sink(dest)
                    &&& s.queue() == o.queue()
                    &&& s.id == o.id
                    &&& s.mode == o.mode
                    &&& s.clip_planes == o.clip_planes
                    &&& s.quitter == o.quitter
                    &&& s.needs_vp_update == o.needs_vp_update
                },
            final(self).same_scene(old(self)),
            final(self).inputs@ == old(self).inputs@,
            old(self).wf() ==> final(self).wf(),
    {
        let k = self.session_index(id);
        self.sessions[k].set_event_dest(dest);
    }

    /// Ends session `id` from the device's side: the session is told so.
    pub fn quit(&mut self, id: u32)
        requires
            exists|k: int| first_session_with(old(self).sessions@, id, k),
        ensures
            forall|k: int|
                #![trigger old(self).sessions@[k]]
                first_session_with(old(self).sessions@, id, k) ==> {
                    &&& final(self).sessions@ == old(self).sessions@.update(k, final(self).sessions@[k])
                    &&& final(self).sessions@[k].received(
                        &old(self).sessions@[k],
                        seq![Event::<T::Frame>::SessionEnd],
                    )
                },
            final(self).same_scene(old(self)),
            final(self).inputs@ == old(self).inputs@,
            old(self).wf() ==> final(self).wf(),
    {
        let k = self.session_index(id);
        self.sessions[k].deliver(Event::SessionEnd);
    }

    /// Keeps the handle with which session `id` is ended on disconnection.
    pub fn set_quitter(&mut self, id: u32, quitter: T::Quitter)
        requires
            exists|k: int| first_session_with(old(self).sessions@, id, k),
        ensures
            forall|k: int|
                #![trigger old(self).sessions@[k]]
                first_session_with(old(self).sessions@, id, k) ==> final(self).sessions@
                    == old(self).sessions@.update(
                    k,
                    PerSessionData { quitter: Some(quitter), ..old(self).sessions@[k] },
                ),
            final(self).same_scene(old(self)),
            final(self).inputs@ == old(self).inputs@,
            old(self).wf() ==> final(self).wf(),
    {
        let k = self.session_index(id);
        self.sessions[k].quitter = Some(quitter);
    }

    /// Moves the clip planes of session `id`.
    pub fn update_clip_planes(&mut self, id: u32, near: T::Distance, far: T::Distance)
        requires
            exists|k: int| first_session_with(old(self).sessions@, id, k),
        ensures
            forall|k: int|
                #![trigger old(self).sessions@[k]]
                first_session_with(old(self).sessions@, id, k) ==> final(self).sessions@
                    == old(self).sessions@.update(
                    k,
                    PerSessionData {
                        clip_planes: old(self).sessions@[k].clip_planes.spec_updated(near, far),
                        ..old(self).sessions@[k]
                    },
                ),
            final(self).same_scene(old(self)),
            final(self).inputs@ == old(self).inputs@,
            old(self).wf() ==> final(self).wf(),
    {
        let k = self.session_index(id);
        self.sessions[k].clip_planes.update(near, far);
    }

    /// Hands over the events of the session at index `k` that are to be
    /// sent to its destination, oldest first.
    pub fn take_outgoing(&mut self, k: usize) -> (sent: Vec<Event<T::Frame>>)
        requires
            k < old(self).sessions@.len(),
        ensures
            sent@ == old(self).sessions@[k as int].outbox@,
            final(self).sessions@ == old(self).sessions@.update(k as int, final(self).sessions@[k as int]),
            final(self).sessions@[k as int].outbox@ == Seq::<Event<T::Frame>>::empty(),
            final(self).sessions@[k as int].events == old(self).sessions@[k as int].events,
            final(self).sessions@[k as int].id == old(self).sessions@[k as int].id,
            final(self).sessions@[k as int].mode == old(self).sessions@[k as int].mode,
            final(self).sessions@[k as int].clip_planes == old(self).sessions@[k as int].clip_planes,
            final(self).sessions@[k as int].quitter == old(self).sessions@[k as int].quitter,
            final(self).sessions@[k as int].needs_vp_update == old(self).sessions@[k as int].needs_vp_update,
            final(self).same_scene(old(self)),
            final(self).inputs@ == old(self).inputs@,
            old(self).wf() ==> final(self).wf(),
    {
        self.sessions[k].take_outgoing()
    }
}

/// The entry that `active_inputs` lists for an input source.
pub open spec fn active_input_entry<P>(i: InputInfo<P>) -> Option<(InputId, P, P)> {
    if i.active {
        Some((i.source.id, i.pointer, i.grip))
    } else {
        None
    }
}

/// Whether `k` is the first session with id `id`.
pub open spec fn first_session_with<T: HeadlessTypes>(
    sessions: Seq<PerSessionData<T>>,
    id: u32,
    k: int,
) -> bool {
    &&& 0 <= k < sessions.len()
    &&& sessions[k].id == id
    &&& forall|j: int| 0 <= j < k ==> sessions[j].id != id
}

/// Sessions that keep their ids keep the device well-formed.
proof fn lemma_same_ids_wf<T: HeadlessTypes>(old: &HeadlessDeviceData<T>, new: &HeadlessDeviceData<T>)
    requires
        old.wf(),
        new.next_id == old.next_id,
        new.sessions@.len() == old.sessions@.len(),
        forall|i: int| 0 <= i < old.sessions@.len() ==> #[trigger] new.sessions@[i].id == old.sessions@[i].id,
    ensures
        new.wf(),
{
    assert forall|i: int, j: int| 0 <= i < j < new.sessions@.len() implies #[trigger] new.sessions@[i].id
        < #[trigger] new.sessions@[j].id by {
        assert(old.sessions@[i].id < old.sessions@[j].id);
    }
    assert forall|i: int| 0 <= i < new.sessions@.len() implies #[trigger] new.sessions@[i].id < new.next_id by {
        assert(old.sessions@[i].id < old.next_id);
    }
}

/// The viewports of a mock device's views, in order: the one view's, or the
/// two views' of a stereo device.
pub fn views_viewports(first: Viewport, second: Option<Viewport>) -> (r: Vec<Viewport>)
    ensures
        second is None ==> r@ == seq![first],
        second matches Some(v) ==> r@ == seq![first, v],
{
    let mut r = Vec::new();
    r.push(first);
    match second {
        Some(v) => r.push(v),
        None => {},
    }
    assert(second is None ==> r@ =~= seq![first]);
    r
}

/// The viewports that a mock device renders for a session of mode `mode`,
/// given the viewport of each of its views: none for an inline session.
pub fn session_viewports(mode: SessionMode, view_viewports: Vec<Viewport>) -> (r: Vec<Viewport>)
    ensures
        mode == SessionMode::Inline ==> r@ == Seq::<Viewport>::empty(),
        mode != SessionMode::Inline ==> r@ == view_viewports@,
{
    if mode == SessionMode::Inline {
        Vec::new()
    } else {
        view_viewports
    }
}

/// The session modes that a mock device offers.
pub struct HeadlessDiscovery {
    pub supports_vr: bool,
    pub supports_inline: bool,
    pub supports_ar: bool,
}

impl HeadlessDiscovery {
    /// Whether a session of mode `mode` can be had from the device.
    pub open spec fn spec_supports<T: HeadlessTypes>(
        &self,
        data: &HeadlessDeviceData<T>,
        mode: SessionMode,
    ) -> bool {
        !data.disconnected && match mode {
            SessionMode::Inline => self.supports_inline,
            SessionMode::ImmersiveVR => self.supports_vr,
            SessionMode::ImmersiveAR => self.supports_ar,
        }
    }

    /// Whether a session of mode `mode` can be had from the device: never
    /// once it is disconnected.
    pub fn supports_session<T: HeadlessTypes>(
        &self,
        data: &HeadlessDeviceData<T>,
        mode: SessionMode,
    ) -> (r: bool)
        ensures
            r == self.spec_supports(data, mode),
            data.disconnected ==> !r,
            !data.disconnected && mode == SessionMode::ImmersiveAR ==> r == self.supports_ar,
            !data.disconnected && mode == SessionMode::ImmersiveVR ==> r == self.supports_vr,
            !data.disconnected && mode == SessionMode::Inline ==> r == self.supports_inline,
    {
        if data.disconnected {
            return false;
        }
        match mode {
            SessionMode::Inline => self.supports_inline,
            SessionMode::ImmersiveVR => self.supports_vr,
            SessionMode::ImmersiveAR => self.supports_ar,
        }
    }

    /// Opens a session of mode `mode` on the device and answers its id, or
    /// answers that the device cannot serve that mode.
    pub fn request_session<T: HeadlessTypes>(
        &self,
        data: &mut HeadlessDeviceData<T>,
        mode: SessionMode,
        clip_planes: ClipPlanes<T::Distance>,
    ) -> (r: Result<u32, Error>)
        requires
            self.spec_supports(old(data), mode) ==> old(data).next_id < u32::MAX,
        ensures
            !self.spec_supports(old(data), mode) ==> {
                &&& r matches Err(e) && e is NoMatchingDevice
                &&& *final(data) == *old(data)
            },
            self.spec_supports(old(data), mode) ==> {
                &&& r == Ok::<u32, Error>(old(data).next_id)
                &&& final(data).next_id == old(data).next_id + 1
                &&& final(data).sessions@.len() == old(data).sessions@.len() + 1
                &&& final(data).sessions@.drop_last() == old(data).sessions@
                &&& final(data).sessions@.last().id == old(data).next_id
                &&& final(data).sessions@.last().mode == mode
                &&& final(data).sessions@.last().clip_planes == clip_planes
                &&& final(data).sessions@.last().quitter is None
                &&& final(data).sessions@.last().events is Buffered
                &&& final(data).sessions@.last().queue() == Seq::<Event<T::Frame>>::empty()
                &&& !final(data).sessions@.last().needs_vp_update
                &&& final(data).inputs@ == old(data).inputs@
                &&& final(data).floor_transform == old(data).floor_transform
                &&& final(data).viewer_origin == old(data).viewer_origin
                &&& final(data).views == old(data).views
                &&& final(data).needs_floor_update == old(data).needs_floor_update
                &&& final(data).disconnected == old(data).disconnected
                &&& final(data).world == old(data).world
            },
            old(data).wf() ==> final(data).wf(),
    {
        if !self.supports_session(data, mode) {
            return Err(Error::NoMatchingDevice);
        }
        let id = data.next_id;
        data.next_id = data.next_id + 1;
        data.sessions.push(PerSessionData::new(id, mode, clip_planes));
        assert(data.sessions@.drop_last() =~= old(data).sessions@);
        Ok(id)
    }
}

/// A connected mock device offers each mode exactly when its flag for that
/// mode is set, whatever the other flags; a disconnected one offers none.
pub proof fn lemma_supported_modes_follow_flags<T: HeadlessTypes>(
    disc: HeadlessDiscovery,
    data: HeadlessDeviceData<T>,
)
    ensures
        !data.disconnected ==> (disc.spec_supports(&data, SessionMode::ImmersiveAR)
            <==> disc.supports_ar),
        !data.disconnected ==> (disc.spec_supports(&data, SessionMode::ImmersiveVR)
            <==> disc.supports_vr),
        !data.disconnected ==> (disc.spec_supports(&data, SessionMode::Inline)
            <==> disc.supports_inline),
        data.disconnected ==> forall|m: SessionMode| !#[trigger] disc.spec_supports(&data, m),
{
}

/// An input update reports the source as it is after the update: a new
/// handedness or target ray mode is in the source that every session is
/// told of, and the device keeps that same source for the input.
pub proof fn lemma_updates_report_new_source<P>(
    info: InputInfo<P>,
    id: InputId,
    h: Handedness,
    t: TargetRayMode,
)
    ensures
        input_notice(info, id, MockInputMsg::SetTargetRayMode(t)) == Some(
            Notice::UpdateInput(id, (InputSource { target_ray_mode: t, ..info.source })),
        ),
        updated_input(info, MockInputMsg::SetTargetRayMode(t)).source == (InputSource {
            target_ray_mode: t,
            ..info.source
        }),
        input_notice(info, id, MockInputMsg::SetHandedness(h)) == Some(
            Notice::UpdateInput(id, (InputSource { handedness: h, ..info.source })),
        ),
        updated_input(info, MockInputMsg::SetHandedness(h)).source == (InputSource {
            handedness: h,
            ..info.source
        }),
{
}

/// A select gesture of a connected input reports its phases: a start
/// reports a start and begins a gesture; an end during a gesture reports a
/// completed select and ends it; an end without a gesture reports an end; a
/// whole select reports a start then a select.
pub proof fn lemma_select_gestures<P>(info: InputInfo<P>, kind: SelectKind)
    requires
        info.active,
    ensures
        input_selects(info, MockInputMsg::TriggerSelect(kind, SelectEvent::Start)) == seq![
            SelectEvent::Start,
        ],
        updated_input(info, MockInputMsg::TriggerSelect(kind, SelectEvent::Start)).clicking,
        input_selects(
            updated_input(info, MockInputMsg::TriggerSelect(kind, SelectEvent::Start)),
            MockInputMsg::TriggerSelect(kind, SelectEvent::End),
        ) == seq![SelectEvent::Select],
        !updated_input(
            updated_input(info, MockInputMsg::TriggerSelect(kind, SelectEvent::Start)),
            MockInputMsg::TriggerSelect(kind, SelectEvent::End),
        ).clicking,
        !info.clicking ==> input_selects(info, MockInputMsg::TriggerSelect(kind, SelectEvent::End))
            == seq![SelectEvent::End],
        input_selects(info, MockInputMsg::TriggerSelect(kind, SelectEvent::Select)) == seq![
            SelectEvent::Start,
            SelectEvent::Select,
        ],
        !updated_input(info, MockInputMsg::TriggerSelect(kind, SelectEvent::Select)).clicking,
{
}

/// An input that is not connected reports no select, and its state stays.
pub proof fn lemma_inactive_input_selects_nothing<P>(
    info: InputInfo<P>,
    kind: SelectKind,
    event: SelectEvent,
)
    requires
        !info.active,
    ensures
        input_selects(info, MockInputMsg::TriggerSelect(kind, event)) == Seq::<SelectEvent>::empty(),
        updated_input(info, MockInputMsg::TriggerSelect(kind, event)) == info,
{
}

/// Disconnecting an input reports its removal once and ends its gesture;
/// reconnecting it reports it again; doing either twice does nothing more.
pub proof fn lemma_disconnect_reconnect<P>(info: InputInfo<P>, id: InputId)
    requires
        info.active,
    ensures
        !updated_input(info, MockInputMsg::Disconnect).active,
        !updated_input(info, MockInputMsg::Disconnect).clicking,
        input_notice(info, id, MockInputMsg::Disconnect) == Some(
            Notice::RemoveInput(info.source.id),
        ),
        updated_input(updated_input(info, MockInputMsg::Disconnect), MockInputMsg::Disconnect)
            == updated_input(info, MockInputMsg::Disconnect),
        input_notice(updated_input(info, MockInputMsg::Disconnect), id, MockInputMsg::Disconnect)
            is None,
        updated_input(updated_input(info, MockInputMsg::Disconnect), MockInputMsg::Reconnect).active,
        input_notice(updated_input(info, MockInputMsg::Disconnect), id, MockInputMsg::Reconnect)
            == Some(Notice::AddInput(info.source)),
        updated_input(info, MockInputMsg::Reconnect) == info,
        input_notice(info, id, MockInputMsg::Reconnect) is None,
{
}

/// No two sessions of a well-formed device share an id.
pub proof fn lemma_session_ids_distinct<T: HeadlessTypes>(d: HeadlessDeviceData<T>)
    requires
        d.wf(),
    ensures
        forall|i: int, j: int|
            0 <= i < d.sessions@.len() && 0 <= j < d.sessions@.len() && i != j ==> #[trigger] d.sessions@[i].id
                != #[trigger] d.sessions@[j].id,
{
    assert forall|i: int, j: int|
        0 <= i < d.sessions@.len() && 0 <= j < d.sessions@.len() && i != j implies #[trigger] d.sessions@[i].id
            != #[trigger] d.sessions@[j].id by {
        if i < j {
            assert(d.sessions@[i].id < d.sessions@[j].id);
        } else {
            assert(d.sessions@[j].id < d.sessions@[i].id);
        }
    }
}

/// A session's events are sent in the order in which they were reported,
/// whether they were reported before or after its destination was set: an
/// event, then a destination, then another event, leave both queued in order.
pub proof fn lemma_events_keep_order<T: HeadlessTypes>(
    s0: PerSessionData<T>,
    s1: PerSessionData<T>,
    s2: PerSessionData<T>,
    s3: PerSessionData<T>,
    e1: Event<T::Frame>,
    e2: Event<T::Frame>,
    dest: T::Sink,
)
    requires
        s1.received(&s0, seq![e1]),
        s2.events == EventBuffer::<Event<T::Frame>, T::Sink>::Sink(dest),
        s2.queue() == s1.queue(),
        s3.received(&s2, seq![e2]),
    ensures
        s3.queue() == s0.queue() + seq![e1, e2],
        s3.events == EventBuffer::<Event<T::Frame>, T::Sink>::Sink(dest),
{
    assert(s3.queue() =~= s0.queue() + seq![e1, e2]);
}

} // verus!
