use ns_core::location::Location;
use ns_core::movement_default::{FixedVelocity, gen_test_fixed_velocity};
use ns_core::point::Point;
use ns_core::scalar::Real;

fn coords(p: &Point) -> (f64, f64) {
    (p.x().repr.parse().unwrap(), p.y().repr.parse().unwrap())
}

#[test]
fn movement_default_test() {
    let mut movement = gen_test_fixed_velocity();
    let moved = movement.update_ues();
    assert_eq!(moved.len(), 3);
    assert_eq!(coords(&moved[0]), (62.0, 0.0));
    assert_eq!(coords(&moved[1]), (-12.4, 12.4));
    assert_eq!(coords(&moved[2]), (-24.8, -24.8));
}

#[test]
fn test_second_advance_same_delta() {
    // the formula is idempotent, the state is not: a second advance moves
    // the terminal by the same delta again
    let mut movement = gen_test_fixed_velocity();
    let first = movement.update_ues();
    let second = movement.update_ues();
    assert_eq!(coords(&first[0]), (62.0, 0.0));
    assert_eq!(coords(&second[0]), (74.0, 0.0));
    let (x1, _) = coords(&first[1]);
    let (x2, _) = coords(&second[1]);
    assert_eq!(x2, x1 + (-2.0f64 * 1.2));
}

#[test]
fn test_set_positions_and_velocity() {
    let mut movement = FixedVelocity::default();
    movement.set_positions(
        vec![Point::init_2d(Real::from_repr("1"), Real::from_repr("1"))],
        vec![Point::init_2d(Real::from_repr("0"), Real::from_repr("0"))],
    );
    movement.set_velocity(vec![Point::init_2d(Real::from_repr("3"), Real::from_repr("-3"))]);
    let moved = movement.update_ues();
    // the default strategy's tick length is one
    assert_eq!(coords(&moved[0]), (4.0, -2.0));
    let tick: f64 = movement.get_tick().repr.parse().unwrap();
    assert_eq!(tick, 1.0);
}
