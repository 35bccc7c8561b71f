use vstd::prelude::*;

verus! {

/// The coordinate space of a hand joint; a marker that tags the values
/// measured in it.
#[derive(Clone, Copy, Debug, PartialEq, Eq, Hash, Structural)]
pub struct HandSpace;

/// One value (of type `J`), where known, for each joint of a finger.
#[derive(Clone, Debug)]
pub struct Finger<J> {
    pub metacarpal: Option<J>,
    pub phalanx_proximal: Option<J>,
    pub phalanx_intermediate: Option<J>,
    pub phalanx_distal: Option<J>,
    pub phalanx_tip: Option<J>,
}

/// One value (of type `J`), where known, for each joint of a hand.
#[derive(Clone, Debug)]
pub struct Hand<J> {
    pub wrist: Option<J>,
    pub thumb_metacarpal: Option<J>,
    pub thumb_phalanx_proximal: Option<J>,
    pub thumb_phalanx_distal: Option<J>,
    pub thumb_phalanx_tip: Option<J>,
    pub index: Finger<J>,
    pub middle: Finger<J>,
    pub ring: Finger<J>,
    pub little: Finger<J>,
}

/// Whether `g` holds, for each joint, a value that `map` can give for the
/// joint's value in `f`.
pub open spec fn finger_mapped<J, R, G: Fn(&Option<J>) -> Option<R>>(
    f: Finger<J>,
    g: Finger<R>,
    map: G,
) -> bool {
    &&& call_ensures(map, (&f.metacarpal,), g.metacarpal)
    &&& call_ensures(map, (&f.phalanx_proximal,), g.phalanx_proximal)
    &&& call_ensures(map, (&f.phalanx_intermediate,), g.phalanx_intermediate)
    &&& call_ensures(map, (&f.phalanx_distal,), g.phalanx_distal)
    &&& call_ensures(map, (&f.phalanx_tip,), g.phalanx_tip)
}

/// Whether `map` can be applied to every joint value of `f`.
pub open spec fn finger_mappable<J, R, G: Fn(&Option<J>) -> Option<R>>(
    f: Finger<J>,
    map: G,
) -> bool {
    &&& call_requires(map, (&f.metacarpal,))
    &&& call_requires(map, (&f.phalanx_proximal,))
    &&& call_requires(map, (&f.phalanx_intermediate,))
    &&& call_requires(map, (&f.phalanx_distal,))
    &&& call_requires(map, (&f.phalanx_tip,))
}

impl<J> Finger<J> {
    /// A finger with no known joint.
    pub fn empty() -> (f: Finger<J>)
        ensures
            f.metacarpal is None,
            f.phalanx_proximal is None,
            f.phalanx_intermediate is None,
            f.phalanx_distal is None,
            f.phalanx_tip is None,
    {
        Finger {
            metacarpal: None,
            phalanx_proximal: None,
            phalanx_intermediate: None,
            phalanx_distal: None,
            phalanx_tip: None,
        }
    }

    /// Applies `map` to the value of each joint.
    pub fn map<R, G: Fn(&Option<J>) -> Option<R> + Copy>(&self, map: G) -> (r: Finger<R>)
        requires
            finger_mappable(*self, map),
        ensures
            finger_mapped(*self, r, map),
    {
        Finger {
            metacarpal: map(&self.metacarpal),
            phalanx_proximal: map(&self.phalanx_proximal),
            phalanx_intermediate: map(&self.phalanx_intermediate),
            phalanx_distal: map(&self.phalanx_distal),
            phalanx_tip: map(&self.phalanx_tip),
        }
    }
}

impl<J> Hand<J> {
    /// A hand with no known joint.
    pub fn empty() -> (h: Hand<J>)
        ensures
            h.wrist is None,
            h.thumb_metacarpal is None,
            h.thumb_phalanx_proximal is None,
            h.thumb_phalanx_distal is None,
            h.thumb_phalanx_tip is None,
    {
        Hand {
            wrist: None,
            thumb_metacarpal: None,
            thumb_phalanx_proximal: None,
            thumb_phalanx_distal: None,
            thumb_phalanx_tip: None,
            index: Finger::empty(),
            middle: Finger::empty(),
            ring: Finger::empty(),
            little: Finger::empty(),
        }
    }

    /// Applies `map` to the value of each joint of the hand.
    pub fn map<R, G: Fn(&Option<J>) -> Option<R> + Copy>(&self, map: G) -> (r: Hand<R>)
        requires
            call_requires(map, (&self.wrist,)),
            call_requires(map, (&self.thumb_metacarpal,)),
            call_requires(map, (&self.thumb_phalanx_proximal,)),
            call_requires(map, (&self.thumb_phalanx_distal,)),
            call_requires(map, (&self.thumb_phalanx_tip,)),
            finger_mappable(self.index, map),
            finger_mappable(self.middle, map),
            finger_mappable(self.ring, map),
            finger_mappable(self.little, map),
        ensures
            call_ensures(map, (&self.wrist,), r.wrist),
            call_ensures(map, (&self.thumb_metacarpal,), r.thumb_metacarpal),
            call_ensures(map, (&self.thumb_phalanx_proximal,), r.thumb_phalanx_proximal),
            call_ensures(map, (&self.thumb_phalanx_distal,), r.thumb_phalanx_distal),
            call_ensures(map, (&self.thumb_phalanx_tip,), r.thumb_phalanx_tip),
            finger_mapped(self.index, r.index, map),
            finger_mapped(self.middle, r.middle, map),
            finger_mapped(self.ring, r.ring, map),
            finger_mapped(self.little, r.little, map),
    {
        Hand {
            wrist: map(&self.wrist),
            thumb_metacarpal: map(&self.thumb_metacarpal),
            thumb_phalanx_proximal: map(&self.thumb_phalanx_proximal),
            thumb_phalanx_distal: map(&self.thumb_phalanx_distal),
            thumb_phalanx_tip: map(&self.thumb_phalanx_tip),
            index: self.index.map(map),
            middle: self.middle.map(map),
            ring: self.ring.map(map),
            little: self.little.map(map),
        }
    }
}

/// Whether `r` holds, for each joint, a value that `map` can give for the
/// joint's value in `h`: what `Hand::map` ensures.
pub open spec fn hand_mapped<J, R, G: Fn(&Option<J>) -> Option<R>>(
    h: Hand<J>,
    r: Hand<R>,
    map: G,
) -> bool {
    &&& call_ensures(map, (&h.wrist,), r.wrist)
    &&& call_ensures(map, (&h.thumb_metacarpal,), r.thumb_metacarpal)
    &&& call_ensures(map, (&h.thumb_phalanx_proximal,), r.thumb_phalanx_proximal)
    &&& call_ensures(map, (&h.thumb_phalanx_distal,), r.thumb_phalanx_distal)
    &&& call_ensures(map, (&h.thumb_phalanx_tip,), r.thumb_phalanx_tip)
    &&& finger_mapped(h.index, r.index, map)
    &&& finger_mapped(h.middle, r.middle, map)
    &&& finger_mapped(h.ring, r.ring, map)
    &&& finger_mapped(h.little, r.little, map)
}

/// Mapping a hand with `f` and then with `g` gives the hand that mapping it
/// once with their composition `fg` gives, when each closure's result
/// depends on its argument alone (`f` computes `sf`, `g` computes `sg`).
pub proof fn lemma_map_composes<J, R, S, F, G, C>(
    h: Hand<J>,
    a: Hand<R>,
    b: Hand<S>,
    c: Hand<S>,
    f: F,
    g: G,
    fg: C,
    sf: spec_fn(Option<J>) -> Option<R>,
    sg: spec_fn(Option<R>) -> Option<S>,
) where F: Fn(&Option<J>) -> Option<R>, G: Fn(&Option<R>) -> Option<S>, C: Fn(&Option<J>) -> Option<S>
    requires
        forall|x: Option<J>, y: Option<R>| #[trigger] call_ensures(f, (&x,), y) ==> y == sf(x),
        forall|x: Option<R>, y: Option<S>| #[trigger] call_ensures(g, (&x,), y) ==> y == sg(x),
        forall|x: Option<J>, y: Option<S>| #[trigger] call_ensures(fg, (&x,), y) ==> y == sg(sf(x)),
        hand_mapped(h, a, f),
        hand_mapped(a, b, g),
        hand_mapped(h, c, fg),
    ensures
        b == c,
{
}

/// Mapping a hand with a closure that gives back the value it is given
/// leaves the hand as it was.
pub proof fn lemma_map_identity<J, F: Fn(&Option<J>) -> Option<J>>(h: Hand<J>, r: Hand<J>, f: F)
    requires
        forall|x: Option<J>, y: Option<J>| #[trigger] call_ensures(f, (&x,), y) ==> y == x,
        hand_mapped(h, r, f),
    ensures
        r == h,
{
}

} // verus!
