use vstd::prelude::*;

verus! {

/// Tag of a coordinate triple that is a location in space.
#[derive(PartialEq, Debug)]
pub struct Point;

/// Tag of a coordinate triple that is a direction or a displacement.
#[derive(PartialEq, Debug)]
pub struct Vector;

/// The tags whose triples are read as `x`, `y` and `z` coordinates.
pub trait HasCoordinates {}

impl HasCoordinates for Point {}

impl HasCoordinates for Vector {}

} // verus!
