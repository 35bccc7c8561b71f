use vstd::prelude::*;

verus! {

/// The kinds of real-world entity that a hit test can hit.
/// https://immersive-web.github.io/hit-test/#enumdef-xrhittesttrackabletype
#[derive(Clone, Copy, Debug, PartialEq, Eq, Structural)]
pub enum EntityType {
    Point,
    Plane,
    Mesh,
}

/// Identifies a hit test that a session requested.
#[derive(Clone, Copy, Debug, PartialEq, Eq, Hash, Structural)]
pub struct HitTestId(pub u32);

/// A set of entity types, one flag for each.
/// https://immersive-web.github.io/hit-test/#dictdef-xrhittestoptionsinit
#[derive(Clone, Copy, Debug, PartialEq, Eq, Structural)]
pub struct EntityTypes {
    pub point: bool,
    pub plane: bool,
    pub mesh: bool,
}

impl EntityTypes {
    /// Whether the set holds `ty`.
    pub open spec fn contains(self, ty: EntityType) -> bool {
        match ty {
            EntityType::Point => self.point,
            EntityType::Plane => self.plane,
            EntityType::Mesh => self.mesh,
        }
    }

    /// The set with `ty` added.
    pub open spec fn with(self, ty: EntityType) -> EntityTypes {
        match ty {
            EntityType::Point => EntityTypes { point: true, ..self },
            EntityType::Plane => EntityTypes { plane: true, ..self },
            EntityType::Mesh => EntityTypes { mesh: true, ..self },
        }
    }

    /// Whether the set holds `ty`.
    pub fn is_type(self, ty: EntityType) -> (r: bool)
        ensures
            r == self.contains(ty),
    {
        match ty {
            EntityType::Point => self.point,
            EntityType::Plane => self.plane,
            EntityType::Mesh => self.mesh,
        }
    }

    /// Adds `ty` to the set.
    pub fn add_type(&mut self, ty: EntityType)
        ensures
            *final(self) == old(self).with(ty),
    {
        match ty {
            EntityType::Point => self.point = true,
            EntityType::Plane => self.plane = true,
            EntityType::Mesh => self.mesh = true,
        }
    }

    /// The set of the given types.
    pub fn from_types(types: &[EntityType]) -> (r: EntityTypes)
        ensures
            forall|ty: EntityType| r.contains(ty) <==> types@.contains(ty),
    {
        let mut acc = EntityTypes::default();
        let n = types.len();
        let mut i: usize = 0;
        while i < n
            invariant
                0 <= i <= n,
                n == types@.len(),
                forall|ty: EntityType| acc.contains(ty) <==> types@.subrange(0, i as int).contains(ty),
            decreases n - i,
        {
            let ghost before = acc;
            acc.add_type(types[i]);
            proof {
                let s1 = types@.subrange(0, i + 1);
                assert(s1 =~= types@.subrange(0, i as int).push(types@[i as int]));
                let prefix = types@.subrange(0, i as int);
                assert forall|ty: EntityType| acc.contains(ty) <==> s1.contains(ty) by {
                    assert(acc.contains(ty) <==> (before.contains(ty) || ty == types@[i as int]));
                    if s1.contains(ty) {
                        let j = choose|j: int| 0 <= j < s1.len() && s1[j] == ty;
                        if j < i {
                            assert(prefix[j] == ty);
                            assert(prefix.contains(ty));
                        }
                    }
                    if prefix.contains(ty) {
                        let j = choose|j: int| 0 <= j < prefix.len() && prefix[j] == ty;
                        assert(s1[j] == ty);
                        assert(s1.contains(ty));
                    }
                    if ty == types@[i as int] {
                        assert(s1[i as int] == ty);
                        assert(s1.contains(ty));
                    }
                }
            }
            i += 1;
        }
        assert(types@.subrange(0, n as int) =~= types@);
        acc
    }
}

impl Default for EntityTypes {
    /// The empty set.
    fn default() -> (r: EntityTypes)
        ensures
            r == (EntityTypes { point: false, plane: false, mesh: false }),
    {
        EntityTypes { point: false, plane: false, mesh: false }
    }
}

/// Adding a type puts it in the set and takes none out; adding it again
/// changes nothing.
pub proof fn lemma_add_type(s: EntityTypes, ty: EntityType, other: EntityType)
    ensures
        s.with(ty).contains(ty),
        s.with(ty).contains(other) <==> (s.contains(other) || other == ty),
        s.with(ty).with(ty) == s.with(ty),
        s.contains(ty) ==> s.with(ty) == s,
{
}

} // verus!
