use vstd::prelude::*;

pub mod sphere;

verus! {

/// Which way the reported normal of a hit points, relative to the
/// surface's own outward normal.
#[derive(PartialEq, Eq, Structural, Debug, Clone, Copy)]
pub enum NormalDirection {
    /// The ray met the surface from outside: the normal is the outward one.
    Outward,
    /// The ray met the surface from inside: the normal was flipped.
    Inward,
}

impl Default for NormalDirection {
    fn default() -> (r: Self)
        ensures
            r == NormalDirection::Outward,
    {
        NormalDirection::Outward
    }
}

impl NormalDirection {
    /// Returns `true` if the normal direction is `Outward`.
    #[must_use]
    pub fn is_outward(&self) -> (r: bool)
        ensures
            r == (*self == NormalDirection::Outward),
    {
        matches!(self, NormalDirection::Outward)
    }

    /// Classifies a hit from the sign of `ray.direction · outward_normal`:
    /// a ray travelling against the outward normal (negative product) came
    /// from outside the surface.
    pub fn from_incidence(against_outward_normal: bool) -> (r: Self)
        ensures
            (r == NormalDirection::Outward) == against_outward_normal,
    {
        if against_outward_normal {
            NormalDirection::Outward
        } else {
            NormalDirection::Inward
        }
    }
}

} // verus!
