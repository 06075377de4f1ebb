use vstd::prelude::*;

verus! {

/// The two roots of the ray/sphere quadratic `a·t² − 2h·t + c = 0`:
/// `Near` is `(h − √Δ) / a`, where the ray enters the sphere, and `Far` is
/// `(h + √Δ) / a`, where it leaves.
#[derive(PartialEq, Eq, Structural, Debug, Clone, Copy)]
pub enum Root {
    Near,
    Far,
}

/// Picks the root that a sphere reports for a ray.
///
/// There is no hit when the discriminant is negative. Otherwise the near
/// root is taken when it lies strictly inside the search interval, else the
/// far root when it does, else there is no hit.
pub fn select_root(discriminant_negative: bool, near_inside: bool, far_inside: bool) -> (r: Option<
    Root,
>)
    ensures
        r == Some(Root::Near) <==> !discriminant_negative && near_inside,
        r == Some(Root::Far) <==> !discriminant_negative && !near_inside && far_inside,
        r is None <==> discriminant_negative || (!near_inside && !far_inside),
{
    if discriminant_negative {
        None
    } else if near_inside {
        Some(Root::Near)
    } else if far_inside {
        Some(Root::Far)
    } else {
        None
    }
}

} // verus!
