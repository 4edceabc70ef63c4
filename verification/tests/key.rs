use unsw_regression::key::{bits_of_key, key_of_bits, NAN_BITS, NAN_KEY};

fn key(x: f64) -> i64 {
    key_of_bits(x.to_bits())
}

fn number(key: i64) -> f64 {
    f64::from_bits(bits_of_key(key))
}

#[test]
fn keys_of_known_patterns() {
    assert_eq!(key(0.0), 0);
    assert_eq!(key(-0.0), 0);
    assert_eq!(key(1.0), 0x3ff0_0000_0000_0000);
    assert_eq!(key(-1.0), -0x3ff0_0000_0000_0000);
    assert_eq!(key(f64::INFINITY), 0x7ff0_0000_0000_0000);
    assert_eq!(key(f64::NEG_INFINITY), -0x7ff0_0000_0000_0000);
    assert_eq!(key(f64::NAN), NAN_KEY);
    assert_eq!(key(-f64::NAN), NAN_KEY);
    assert_eq!(key_of_bits(1), 1);
    assert_eq!(key_of_bits(0x8000_0000_0000_0001), -1);
    assert_eq!(key_of_bits(u64::MAX), i64::MAX);
}

#[test]
fn keys_order_as_the_numbers_do() {
    let numbers = [
        f64::NEG_INFINITY,
        f64::MIN,
        -1.0e300,
        -42.5,
        -1.0,
        -f64::MIN_POSITIVE,
        -5.0e-324,
        0.0,
        5.0e-324,
        f64::MIN_POSITIVE,
        0.121478,
        0.5,
        0.9,
        1.0,
        74.08749,
        1.0e300,
        f64::MAX,
        f64::INFINITY,
    ];
    for a in numbers {
        for b in numbers {
            assert_eq!(key(a) < key(b), a < b, "{a} < {b}");
            assert_eq!(key(a) == key(b), a == b, "{a} == {b}");
        }
        assert!(key(a) < key(f64::NAN));
    }
}

#[test]
fn keys_come_back_as_the_same_number() {
    for x in [0.0, 0.9, 0.5, -0.5, 1.0e-310, -1.0e-310, 3.0e9, f64::MAX, f64::MIN, f64::INFINITY] {
        assert_eq!(number(key(x)).to_bits(), x.to_bits());
    }
    assert_eq!(number(key(-0.0)).to_bits(), 0.0f64.to_bits());
    assert!(number(key(f64::NAN)).is_nan());
    assert_eq!(bits_of_key(NAN_KEY), NAN_BITS);
}

#[test]
fn keys_beyond_the_infinities_are_not_numbers() {
    assert!(number(i64::MAX).is_nan());
    assert!(number(i64::MIN).is_nan());
    assert!(number(0x7ff0_0000_0000_0001).is_nan());
    assert!(number(-0x7ff0_0000_0000_0001).is_nan());
    assert_eq!(number(0x7ff0_0000_0000_0000), f64::INFINITY);
    assert_eq!(number(-0x7ff0_0000_0000_0000), f64::NEG_INFINITY);
    assert_eq!(bits_of_key(-1), 0x8000_0000_0000_0001);
}

#[test]
fn single_precision_values_keep_their_order() {
    let values = [0.1f32, 0.2, 0.30000001, 0.3, -7.25, 1.0e30];
    for a in values {
        for b in values {
            assert_eq!(key(a as f64) < key(b as f64), a < b);
        }
        assert_eq!(number(key(a as f64)) as f32, a);
    }
}
