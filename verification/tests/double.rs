use observatory::double::{Double, NINETY_FIVE, TWO};

fn double(x: f64) -> Double {
    Double { bits: x.to_bits() }
}

#[test]
fn patterns_compare_as_numbers() {
    let all = [
        0.0, -0.0, 1.0, -1.0, 0.5, 2.0, 1.9999, 2.0001, 95.0, 94.99, 95.01, 1e300, -1e300, 1e-310,
        -1e-310, f64::MIN_POSITIVE, f64::MAX, f64::MIN, f64::INFINITY, f64::NEG_INFINITY, f64::NAN,
        -f64::NAN, f64::EPSILON, 5e-324, -5e-324,
    ];
    for a in all {
        for b in all {
            assert_eq!(double(a).at_least(&double(b)), a >= b, "{a} {b}");
        }
    }
}

#[test]
fn the_named_patterns_are_their_numbers() {
    assert_eq!(NINETY_FIVE, 95.0f64.to_bits());
    assert_eq!(TWO, 2.0f64.to_bits());
}
