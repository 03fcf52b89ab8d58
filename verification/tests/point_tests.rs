use ns_core::point::Point;
use ns_core::scalar::Real;

#[test]
fn test_norm() {
    let point = Point::init_2d(Real::from_repr("3"), Real::from_repr("4"));
    let n: f64 = point.norm_2().repr.parse().unwrap();
    assert_eq!(n, 5.0);
}

#[test]
fn test_dot() {
    let p1 = Point::init_2d(Real::from_repr("1"), Real::from_repr("2"));
    let p2 = Point::init_2d(Real::from_repr("2"), Real::from_repr("3"));
    let d: f64 = p1.dot(&p2).repr.parse().unwrap();
    assert_eq!(d, 8.0);
}

#[test]
fn test_aov_2d() {
    // every quadrant's diagonal reads as 45 degrees
    let p1 = Point::init_2d(Real::from_repr("0"), Real::from_repr("0"));
    let p2 = Point::init_2d(Real::from_repr("-1"), Real::from_repr("1"));
    let a2: f64 = p1.aov_2d(&p2).repr.parse().unwrap();
    assert_eq!(a2, 45.0);

    let p3 = Point::init_2d(Real::from_repr("1"), Real::from_repr("-1"));
    let p4 = Point::init_2d(Real::from_repr("-1"), Real::from_repr("-1"));
    let a3: f64 = p1.aov_2d(&p3).repr.parse().unwrap();
    let a4: f64 = p1.aov_2d(&p4).repr.parse().unwrap();
    assert_eq!(a3, 45.0);
    assert_eq!(a3, a4);

    // away from the origin too
    let p = Point::init_2d(Real::from_repr("1"), Real::from_repr("1"));
    let p_o = Point::init_2d(Real::from_repr("2"), Real::from_repr("0"));
    let a: f64 = p.aov_2d(&p_o).repr.parse().unwrap();
    assert_eq!(a, 45.0);
}

#[test]
fn test_aov_2d_folds_obtuse_angles() {
    // atan2 lands near 180 degrees here; two reductions by 90 land in [0, 90]
    let p1 = Point::init_2d(Real::from_repr("0"), Real::from_repr("0"));
    let p2 = Point::init_2d(Real::from_repr("-100"), Real::from_repr("1"));
    let a: f64 = p1.aov_2d(&p2).repr.parse().unwrap();
    let expected = {
        let mut deg = (1.0f64.atan2(-100.0) * 180.0 / std::f64::consts::PI).abs();
        while deg > 90.0 {
            deg -= 90.0;
        }
        deg
    };
    assert_eq!(a, expected);
    assert!(a >= 0.0 && a <= 90.0);
}

#[test]
fn test_distance() {
    let p1 = Point::init_2d(Real::from_repr("1"), Real::from_repr("0"));
    let p2 = Point::init_2d(Real::from_repr("2"), Real::from_repr("2"));
    let d: f64 = p1.distance_with(&p2).repr.parse().unwrap();
    assert_eq!(d, libm::sqrt(5.0));
}

#[test]
fn test_point_arithmetic() {
    let mut p = Point::init_2d(Real::from_repr("1"), Real::from_repr("2"));
    let q = Point::init_2d(Real::from_repr("0.5"), Real::from_repr("-1"));
    p.add(&q);
    let x: f64 = p.x().repr.parse().unwrap();
    let y: f64 = p.y().repr.parse().unwrap();
    assert_eq!(x, 1.5);
    assert_eq!(y, 1.0);

    let mut r = Point::init_2d(Real::from_repr("3"), Real::from_repr("-2"));
    r.dot_const(Real::from_repr("2.5"));
    let rx: f64 = r.x().repr.parse().unwrap();
    let ry: f64 = r.y().repr.parse().unwrap();
    assert_eq!(rx, 7.5);
    assert_eq!(ry, -5.0);

    let mut s = Point::init_2d(Real::from_repr("1"), Real::from_repr("2"));
    s.add_const(Real::from_repr("0.25"));
    let sx: f64 = s.x().repr.parse().unwrap();
    let sz: f64 = s.z().repr.parse().unwrap();
    assert_eq!(sx, 1.25);
    assert_eq!(sz, 0.25);

    let t = Point::add_to_new(
        &Point::init_2d(Real::from_repr("1"), Real::from_repr("1")),
        &Point::init_2d(Real::from_repr("2"), Real::from_repr("3")),
    );
    let tx: f64 = t.x().repr.parse().unwrap();
    let ty: f64 = t.y().repr.parse().unwrap();
    assert_eq!(tx, 3.0);
    assert_eq!(ty, 4.0);
}
