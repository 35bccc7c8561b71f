use vstd::prelude::*;

verus! {

/// The quotient of `a` by `d > 0`, rounded toward zero, as Rust's integer
/// division rounds it.
pub open spec fn div_toward_zero(a: int, d: int) -> int {
    if a >= 0 {
        a / d
    } else {
        -((-a) / d)
    }
}

/// The near and far clip planes of a session, with a flag that records
/// whether a change is yet to be propagated to the client. `F` is the
/// type of a distance.
#[derive(Clone, Copy, Debug)]
pub struct ClipPlanes<F> {
    pub near: F,
    pub far: F,
    /// Was there an update that needs propagation to the client?
    pub update: bool,
}

impl<F> ClipPlanes<F> {
    /// Whether a change of the planes is yet to be propagated.
    pub open spec fn pending_update(self) -> bool {
        self.update
    }

    /// The planes after `update(near, far)`.
    pub open spec fn spec_updated(self, near: F, far: F) -> Self {
        ClipPlanes { near, far, update: true }
    }

    /// The planes after `recently_updated()`.
    pub open spec fn spec_cleared(self) -> Self {
        ClipPlanes { update: false, ..self }
    }

    /// Planes at the given distances, with no change pending.
    pub fn new(near: F, far: F) -> (c: Self)
        ensures
            c.near == near,
            c.far == far,
            !c.pending_update(),
    {
        ClipPlanes { near, far, update: false }
    }

    /// Moves the planes, and records that the change is to be propagated.
    pub fn update(&mut self, near: F, far: F)
        ensures
            *final(self) == old(self).spec_updated(near, far),
            final(self).near == near,
            final(self).far == far,
            final(self).pending_update(),
    {
        self.near = near;
        self.far = far;
        self.update = true;
    }

    /// Checks for and clears the pending update flag.
    pub fn recently_updated(&mut self) -> (r: bool)
        ensures
            r == old(self).pending_update(),
            *final(self) == old(self).spec_cleared(),
            !final(self).pending_update(),
            final(self).near == old(self).near,
            final(self).far == old(self).far,
    {
        if self.update {
            self.update = false;
            true
        } else {
            false
        }
    }
}

/// An update of the clip planes is reported exactly once: the first check
/// after it answers yes, and a second check answers no, whatever the planes
/// were before, and the planes keep the distances that the update set.
pub proof fn lemma_update_reported_once<F>(c: ClipPlanes<F>, near: F, far: F)
    ensures
        c.spec_updated(near, far).pending_update(),
        !c.spec_updated(near, far).spec_cleared().pending_update(),
        c.spec_updated(near, far).spec_cleared().near == near,
        c.spec_updated(near, far).spec_cleared().far == far,
{
}

/// Checking for an update leaves no update pending, so two checks in a row
/// never both answer yes.
pub proof fn lemma_check_clears<F>(c: ClipPlanes<F>)
    ensures
        !c.spec_cleared().pending_update(),
        c.spec_cleared().spec_cleared() == c.spec_cleared(),
{
}

} // verus!
