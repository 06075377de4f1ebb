use raytracing_rs::hittable::sphere::{select_root, Root};
use raytracing_rs::hittable::NormalDirection;

#[test]
fn outward_is_outward() {
    assert!(NormalDirection::Outward.is_outward());
    assert!(!NormalDirection::Inward.is_outward());
}

#[test]
fn default_direction_is_outward() {
    assert_eq!(NormalDirection::default(), NormalDirection::Outward);
}

#[test]
fn ray_against_normal_hits_from_outside() {
    // A ray along -z meeting a sphere at (0,0,-1) radius 0.5: the outward
    // normal at the hit is +z, so the product with the direction is negative.
    assert_eq!(NormalDirection::from_incidence(true), NormalDirection::Outward);
}

#[test]
fn ray_along_normal_hits_from_inside() {
    assert_eq!(NormalDirection::from_incidence(false), NormalDirection::Inward);
}

#[test]
fn negative_discriminant_misses() {
    // A ray that passes beside the sphere: no root at all, whatever the
    // interval tests say.
    assert_eq!(select_root(true, false, false), None);
    assert_eq!(select_root(true, true, true), None);
}

#[test]
fn near_root_is_preferred() {
    assert_eq!(select_root(false, true, true), Some(Root::Near));
    assert_eq!(select_root(false, true, false), Some(Root::Near));
}

#[test]
fn far_root_when_near_is_out_of_range() {
    // A ray that starts inside the sphere: the entry point lies behind it.
    assert_eq!(select_root(false, false, true), Some(Root::Far));
}

#[test]
fn no_root_in_range_misses() {
    assert_eq!(select_root(false, false, false), None);
}
