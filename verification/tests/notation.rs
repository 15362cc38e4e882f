use weather_station::measure::{one_decimal, Measurement};

fn shown(value: f64) -> String {
    one_decimal(Measurement::from_bits(value.to_bits()))
}

fn agrees(value: f64) {
    assert_eq!(shown(value), format!("{:.1}", value), "for {:e}", value);
}

#[test]
fn one_decimal_of_everyday_values() {
    assert_eq!(shown(25.0), "25.0");
    assert_eq!(shown(40.0), "40.0");
    assert_eq!(shown(1012.3), "1012.3");
    assert_eq!(shown(3.2), "3.2");
    assert_eq!(shown(-7.46), "-7.5");
    assert_eq!(shown(0.0), "0.0");
}

#[test]
fn one_decimal_rounds_ties_to_even() {
    assert_eq!(shown(0.25), "0.2");
    assert_eq!(shown(0.75), "0.8");
    assert_eq!(shown(1.25), "1.2");
    assert_eq!(shown(2.5), "2.5");
    assert_eq!(shown(-0.25), "-0.2");
    agrees(0.25);
    agrees(0.75);
    agrees(1.25);
    agrees(1.75);
    agrees(-0.75);
    agrees(1000000.25);
    agrees(0.05);
    agrees(0.15);
    agrees(0.35);
    agrees(0.95);
    agrees(9.95);
    agrees(99.95);
}

#[test]
fn one_decimal_keeps_the_sign_of_zero() {
    assert_eq!(shown(-0.0), "-0.0");
    assert_eq!(shown(-0.04), "-0.0");
    agrees(-0.0);
    agrees(-0.04);
    agrees(-1e-310);
}

#[test]
fn one_decimal_of_what_is_not_finite() {
    assert_eq!(shown(f64::NAN), "NaN");
    assert_eq!(shown(-f64::NAN), "NaN");
    assert_eq!(shown(f64::INFINITY), "inf");
    assert_eq!(shown(f64::NEG_INFINITY), "-inf");
    agrees(f64::NAN);
    agrees(f64::INFINITY);
    agrees(f64::NEG_INFINITY);
}

#[test]
fn one_decimal_writes_large_numbers_in_full() {
    assert_eq!(shown(1e21), "1000000000000000000000.0");
    assert_eq!(shown(4503599627370496.0), "4503599627370496.0");
    assert_eq!(shown(9007199254740993.0), "9007199254740992.0");
    agrees(1e21);
    agrees(1e100);
    agrees(f64::MAX);
    agrees(f64::MIN);
    agrees(1.7976931348623157e308);
    agrees(4503599627370496.0);
    agrees(4503599627370495.5);
    agrees(2251799813685247.75);
}

#[test]
fn one_decimal_of_tiny_numbers() {
    agrees(f64::MIN_POSITIVE);
    agrees(5e-324);
    agrees(1e-20);
    agrees(0.049999999999999996);
    agrees(0.05000000000000001);
}

#[test]
fn one_decimal_agrees_with_the_standard_library_on_a_sweep() {
    let mut bits: u64 = 0x0123_4567_89ab_cdef;
    let mut count = 0;
    while count < 20000 {
        bits = bits.wrapping_mul(6364136223846793005).wrapping_add(1442695040888963407);
        let value = f64::from_bits(bits);
        agrees(value);
        let near = f64::from_bits(0x3f00_0000_0000_0000 + (bits >> 6));
        agrees(near);
        agrees(-near);
        count += 1;
    }
}

#[test]
fn one_decimal_agrees_with_the_standard_library_on_quarters() {
    let mut k: i64 = -4000;
    while k <= 4000 {
        agrees(k as f64 / 4.0);
        agrees(k as f64 / 20.0);
        agrees(k as f64 / 8.0);
        k += 1;
    }
}
