use vstd::prelude::*;

verus! {

/// Identifies one input source (a controller, a hand, a gaze) of a device.
#[derive(Clone, Copy, Debug, PartialEq, Eq, Hash, Structural)]
pub struct InputId(pub u32);

/// Which hand an input source is held in.
#[derive(Clone, Copy, Debug, PartialEq, Eq, Structural)]
pub enum Handedness {
    /// Not held in either hand.
    Neither,
    Left,
    Right,
}

/// How an input source produces its target ray.
#[derive(Clone, Copy, Debug, PartialEq, Eq, Structural)]
pub enum TargetRayMode {
    Gaze,
    TrackedPointer,
    Screen,
}

/// The description of an input source that is reported to the page.
#[derive(Clone, Copy, Debug, PartialEq, Eq, Structural)]
pub struct InputSource {
    pub handedness: Handedness,
    pub target_ray_mode: TargetRayMode,
    pub id: InputId,
}

/// The phase of a select (or squeeze) gesture.
#[derive(Clone, Copy, Debug, PartialEq, Eq, Structural)]
pub enum SelectEvent {
    /// Selection started
    Start,
    /// Selection ended *without* it being a contiguous select event
    End,
    /// Selection ended *with* it being a contiguous select event
    Select,
}

/// Whether a gesture is the primary action (select) or the grip action (squeeze).
#[derive(Clone, Copy, Debug, PartialEq, Eq, Structural)]
pub enum SelectKind {
    Select,
    Squeeze,
}

} // verus!
