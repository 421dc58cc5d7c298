use closed01::sample;
use closed01::Closed01;
use closed01::OutOfRangeError;
use rand::Rng;

#[test]
fn test_construction_rejection() {
    assert_eq!(OutOfRangeError, Closed01::new(-1, 10000).unwrap_err());
    assert_eq!(OutOfRangeError, Closed01::new(10001, 10000).unwrap_err());
    assert!(Closed01::new(0, 10000).is_ok());
    assert!(Closed01::new(10000, 10000).is_ok());
}

#[test]
fn test_saturating_add_boundary() {
    let a = Closed01::new(4, 10).unwrap();
    let b = Closed01::new(6, 10).unwrap();
    let c = Closed01::new(7, 10).unwrap();
    assert_eq!(Closed01::one(10), a.saturating_add(b));
    assert_eq!(Closed01::one(10), a.saturating_add(c));
}

#[test]
fn test_saturating_sub_boundary() {
    let a = Closed01::new(3, 10).unwrap();
    let b = Closed01::new(5, 10).unwrap();
    assert_eq!(Closed01::zero(10), a.saturating_sub(b));
}

#[test]
fn test_rounding_boundary() {
    assert_eq!(Closed01::one(10), Closed01::new(5, 10).unwrap().round());
    assert_eq!(Closed01::zero(100000), Closed01::new(49999, 100000).unwrap().round());
}

#[test]
fn test_scale_identity() {
    let a = Closed01::new(3, 10).unwrap();
    let zero = Closed01::zero(10);
    let one = Closed01::one(10);
    assert_eq!(a, a.scale_up(zero));
    assert_eq!(a, a.scale_down(zero));
    assert_eq!(one, a.scale_up(one));
    assert_eq!(zero, a.scale_down(one));
}

#[test]
fn test_approx_eq_strictness() {
    let a = Closed01::new(3, 1000).unwrap();
    let b = Closed01::new(5, 1000).unwrap();
    let exact = Closed01::new(2, 1000).unwrap();
    let wider = Closed01::new(3, 1000).unwrap();
    assert_eq!(2, a.distance(b).get());
    assert!(!a.approx_eq(b, exact));
    assert!(a.approx_eq(b, wider));
}

#[test]
fn test_resolution_round_trip() {
    let a = Closed01::new(7, 10).unwrap();
    assert_eq!(a, a.with_resolution(100).with_resolution(10));
    let b = Closed01::new(2, 3).unwrap();
    assert_eq!(b, b.with_resolution(30).with_resolution(3));
    let narrowed = b.with_resolution(10);
    assert_eq!(6, narrowed.get());
    assert!(narrowed.get() <= narrowed.resolution());
}

#[test]
fn test_add_within_epsilon() {
    let a = Closed01::new(4, 10).unwrap();
    let b = Closed01::new(5, 10).unwrap();
    assert_eq!(9, a.saturating_add(b).get());
}

#[test]
fn test_sub_within_epsilon() {
    let a = Closed01::new(600, 1000).unwrap();
    let b = Closed01::new(500, 1000).unwrap();
    let eps = Closed01::new(1, 1000).unwrap();
    assert!(a.saturating_sub(b).approx_eq(Closed01::new(100, 1000).unwrap(), eps));
}

#[test]
fn test_scale_up_from_zero() {
    let a = Closed01::new(0, 10).unwrap();
    let one = Closed01::new(10, 10).unwrap();
    assert_eq!(Closed01::one(10), a.scale_up(one));
}

#[test]
fn test_scale_down_by_zero() {
    let a = Closed01::new(10, 10).unwrap();
    let zero = Closed01::new(0, 10).unwrap();
    assert_eq!(Closed01::one(10), a.scale_down(zero));
}

#[test]
fn test_center() {
    assert_eq!(5, Closed01::center(10).get());
    assert_eq!(50000, Closed01::center(100000).get());
    assert_eq!(Closed01::one(10), Closed01::center(10).round());
}

#[test]
fn test_average_exact() {
    let a = Closed01::new(4, 10).unwrap();
    let b = Closed01::new(6, 10).unwrap();
    assert_eq!(5, a.average(b).get());
    assert_eq!(5, b.average(a).get());
    let c = Closed01::new(5, 10).unwrap();
    assert_eq!(4, a.average(c).get());
}

#[test]
fn test_mul_exact() {
    let a = Closed01::new(50, 100).unwrap();
    assert_eq!(25, a.mul(a).get());
    let b = Closed01::new(100, 100).unwrap();
    assert_eq!(50, a.mul(b).get());
    assert_eq!(50, b.mul(a).get());
}

#[test]
fn test_distance_symmetric() {
    let a = Closed01::new(3, 10).unwrap();
    let b = Closed01::new(7, 10).unwrap();
    assert_eq!(4, a.distance(b).get());
    assert_eq!(4, b.distance(a).get());
    assert_eq!(0, a.distance(a).get());
}

#[test]
fn test_ordering() {
    let a = Closed01::new(3, 10).unwrap();
    let b = Closed01::new(7, 10).unwrap();
    assert!(a.lt(b));
    assert!(a.le(b));
    assert!(a.le(a));
    assert!(!b.lt(a));
    assert!(!a.lt(a));
}

#[test]
fn test_sampling_never_rejected() {
    let den: i64 = 1_000_000;
    let mut rng = rand::thread_rng();
    for _ in 0..10000 {
        let raw: i64 = rng.gen_range(0..=den);
        let c = Closed01::new(raw, den).unwrap();
        assert!(c.get() <= den);
    }
}

#[test]
fn test_sampling_through_library() {
    let den: i64 = 1_000_000;
    for _ in 0..1000 {
        let c = sample(den);
        assert_eq!(den, c.resolution());
        assert!(0 <= c.get() && c.get() <= den);
    }
}

#[test]
fn test_minmax_tie() {
    let a = Closed01::new(5, 10).unwrap();
    let b = Closed01::new(5, 10).unwrap();
    assert_eq!(a, a.min(b));
    assert_eq!(a, a.max(b));
    assert_eq!(b, b.min(a));
    assert_eq!(b, b.max(a));
}

#[test]
fn test_range_closure() {
    let den: i64 = 10;
    for i in 0..=den {
        for j in 0..=den {
            let a = Closed01::new(i, den).unwrap();
            let b = Closed01::new(j, den).unwrap();
            let results = [
                a.min(b),
                a.max(b),
                a.distance(b),
                a.average(b),
                a.saturating_add(b),
                a.saturating_sub(b),
                a.mul(b),
                a.scale_up(b),
                a.scale_down(b),
                a.inv(),
                a.round(),
            ];
            for r in results {
                assert!(0 <= r.get() && r.get() <= r.resolution());
                assert_eq!(den, r.resolution());
            }
        }
    }
}
