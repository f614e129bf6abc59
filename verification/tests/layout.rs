use pixel_sprite::layout::{Coordinate, SUBCELL};

#[test]
fn coordinate_addition_is_componentwise() {
    let point = Coordinate::from_cells(10, 5);
    let movement = Coordinate::from_cells(2, -1);
    let moved = point.plus(movement);
    assert_eq!(moved, Coordinate::from_cells(12, 4));
}

#[test]
fn coordinate_scaling_is_componentwise() {
    let v = Coordinate::from_cells(1, -1);
    let scaled = v.times(3);
    assert_eq!(scaled, Coordinate::from_cells(3, -3));
    assert_eq!(scaled.x, 3 * SUBCELL);
}

#[test]
fn coordinate_default_is_origin() {
    let origin = Coordinate::default();
    assert_eq!(origin, Coordinate::from_cells(0, 0));
    assert_eq!(origin.x, 0);
    assert_eq!(origin.y, 0);
}
