use hyperdrive::binary64::Binary64;

fn b(v: f64) -> Binary64 {
    Binary64::from_bits(v.to_bits())
}

const VALUES: [f64; 16] = [
    0.0,
    -0.0,
    1.0,
    -1.0,
    f64::EPSILON,
    -f64::EPSILON,
    f64::MIN_POSITIVE,
    5e-324,
    -5e-324,
    f64::MAX,
    f64::MIN,
    f64::INFINITY,
    f64::NEG_INFINITY,
    f64::NAN,
    -f64::NAN,
    123456.789,
];

#[test]
fn comparisons_are_those_of_floating_point() {
    for x in VALUES {
        assert_eq!(b(x).is_nan(), x.is_nan());
        for y in VALUES {
            assert_eq!(b(x).at_most(b(y)), x <= y, "{x} <= {y}");
            assert_eq!(b(x).below(b(y)), x < y, "{x} < {y}");
            for z in VALUES {
                assert_eq!(b(x).within(b(y), b(z)), (y..=z).contains(&x));
            }
        }
    }
}

#[test]
fn thousandths_are_rounded_to_the_nearest() {
    for n in [0, 1, -1, 7, 999, 1000, -1000, 1001, 15360, -5266, i32::MAX, i32::MIN] {
        assert_eq!(
            Binary64::from_thousandths(n),
            b(f64::from(n) / 1000.0),
            "{n}"
        );
    }
    for n in (-2_000_000..2_000_000).step_by(7) {
        if n != 0 {
            assert_eq!(Binary64::from_thousandths(n), b(f64::from(n) / 1000.0));
        }
    }
}
