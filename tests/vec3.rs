use raytracing_rs::color::Color;
use raytracing_rs::vec3::{HasCoordinates, Point, Vector};

fn has_coordinates<T: HasCoordinates>(_tag: &T) -> bool {
    true
}

#[test]
fn points_and_vectors_have_coordinates() {
    assert!(has_coordinates(&Point));
    assert!(has_coordinates(&Vector));
}

#[test]
fn tags_compare_equal_to_themselves() {
    assert_eq!(Point, Point);
    assert_eq!(Vector, Vector);
    assert_eq!(Color, Color);
}
