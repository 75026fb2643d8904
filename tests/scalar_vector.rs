use particle_swarm::error::ConfigError;
use particle_swarm::scalar::Scalar;
use particle_swarm::vector::{Bounds, Vector2D, VectorN};

fn s(x: f64) -> Scalar {
    Scalar::from_bits(x.to_bits())
}

fn f(x: Scalar) -> f64 {
    f64::from_bits(x.to_bits())
}

fn vector(xs: &[f64]) -> VectorN {
    VectorN::new(xs.iter().map(|x| s(*x)).collect(), xs.len()).unwrap()
}

fn values(v: &VectorN) -> Vec<f64> {
    v.coordinates.iter().map(|c| f(*c)).collect()
}

#[test]
fn scalar_order_matches_f64() {
    let samples = [
        f64::NEG_INFINITY,
        -1.0e300,
        -2.5,
        -1.0,
        -f64::MIN_POSITIVE,
        -0.0,
        0.0,
        5e-324,
        0.5,
        1.0,
        3.75,
        1.0e300,
        f64::INFINITY,
        f64::NAN,
    ];
    for a in samples {
        for b in samples {
            assert_eq!(s(a).less_than(&s(b)), a < b, "{} < {}", a, b);
        }
    }
}

#[test]
fn scalar_classification() {
    assert!(s(1.5).is_finite());
    assert!(!s(f64::INFINITY).is_finite());
    assert!(!s(f64::NEG_INFINITY).is_finite());
    assert!(s(f64::NAN).is_nan());
    assert!(!s(f64::NAN).is_finite());
    assert!(!s(-0.0).is_nan());
    assert_eq!(f(Scalar::zero()), 0.0);
    assert_eq!(f(Scalar::one()), 1.0);
    assert_eq!(f(Scalar::infinity()), f64::INFINITY);
}

#[test]
fn fitness_puts_non_finite_last() {
    assert!(s(1.0).better_than(&s(2.0)));
    assert!(!s(2.0).better_than(&s(1.0)));
    assert!(!s(2.0).better_than(&s(2.0)));
    assert!(s(1.0e308).better_than(&s(f64::INFINITY)));
    assert!(s(-1.0e308).better_than(&s(f64::NEG_INFINITY)));
    assert!(!s(f64::NEG_INFINITY).better_than(&s(0.0)));
    assert!(!s(f64::NAN).better_than(&s(f64::INFINITY)));
    assert!(s(5.0).better_than(&s(f64::NAN)));
    assert!(!s(f64::INFINITY).better_than(&s(f64::NAN)));
}

#[test]
fn scalar_clamp_matches_f64() {
    let (lo, hi) = (-5.0, 5.0);
    for x in [-1.0e9, -5.0, -4.999, -0.0, 0.0, 2.5, 5.0, 5.0001, f64::INFINITY, f64::NEG_INFINITY] {
        let c = f(s(x).clamp(s(lo), s(hi)));
        assert_eq!(c.to_bits(), x.clamp(lo, hi).to_bits(), "clamp {}", x);
    }
    assert!(f(s(f64::NAN).clamp(s(lo), s(hi))).is_nan());
}

#[test]
fn clamp_twice_equals_clamp_once() {
    let b = Bounds::new(s(-1.5), s(2.0)).unwrap();
    for xs in [vec![-3.0, 0.25, 7.0], vec![2.0, -1.5, 1.999], vec![f64::INFINITY, -0.0, f64::NEG_INFINITY]] {
        let mut once = vector(&xs);
        once.clamp(b);
        let mut twice = once.clone();
        twice.clamp(b);
        assert_eq!(once.coordinates, twice.coordinates);
    }
}

#[test]
fn vector_clamp_projects_into_box() {
    let b = Bounds::new(s(-5.0), s(5.0)).unwrap();
    let mut v = vector(&[-7.0, 1.0, 12.0, 5.0]);
    v.clamp(b);
    assert_eq!(values(&v), vec![-5.0, 1.0, 5.0, 5.0]);
}

#[test]
fn vector_new_checks_dimension() {
    let r = VectorN::new(vec![s(1.0), s(2.0)], 3);
    assert_eq!(r.unwrap_err(), ConfigError::DimensionMismatch);
    let v = VectorN::new(vec![s(1.0), s(2.0), s(3.0)], 3).unwrap();
    assert_eq!(v.len(), 3);
    assert_eq!(values(&v), vec![1.0, 2.0, 3.0]);
}

#[test]
fn vector_zero_and_duplicate() {
    let z = VectorN::zero(4);
    assert_eq!(values(&z), vec![0.0; 4]);
    assert!(z.coordinates.iter().all(|c| c.to_bits() == 0));
    let v = vector(&[1.0, -2.0]);
    assert_eq!(v.duplicate().coordinates, v.coordinates);
    assert_eq!(VectorN::zero(0).len(), 0);
}

#[test]
fn bounds_must_be_ordered() {
    assert_eq!(Bounds::new(s(1.0), s(1.0)).unwrap_err(), ConfigError::InvalidBounds);
    assert_eq!(Bounds::new(s(2.0), s(1.0)).unwrap_err(), ConfigError::InvalidBounds);
    assert_eq!(Bounds::new(s(f64::NAN), s(1.0)).unwrap_err(), ConfigError::InvalidBounds);
    let b = Bounds::new(s(-1.0), s(1.0)).unwrap();
    assert_eq!(f(b.lower), -1.0);
    assert_eq!(f(b.upper), 1.0);
    assert!(!ConfigError::InvalidBounds.message().is_empty());
}

#[test]
fn vector2d_clamp_each_axis() {
    let mut p = Vector2D::new(s(10.0), s(-10.0));
    p.clamp((s(-1.0), s(1.0)), (s(-2.0), s(2.0)));
    assert_eq!(f(p.x), 1.0);
    assert_eq!(f(p.y), -2.0);
    let mut q = Vector2D::new(s(0.5), s(1.5));
    q.clamp((s(-1.0), s(1.0)), (s(-2.0), s(2.0)));
    assert_eq!((f(q.x), f(q.y)), (0.5, 1.5));
}
