use js_embed::number::Double;
use js_embed::text::decimal_string;

fn samples() -> Vec<i64> {
    let mut out: Vec<i64> = vec![
        0,
        1,
        -1,
        2,
        3,
        255,
        -256,
        i32::MAX as i64,
        i32::MIN as i64,
        i32::MAX as i64 + 1,
        i32::MIN as i64 - 1,
        (1i64 << 52) - 1,
        1i64 << 52,
        (1i64 << 53) - 1,
        1i64 << 53,
        (1i64 << 53) + 1,
        (1i64 << 53) + 2,
        (1i64 << 53) + 3,
        (1i64 << 54) + 2,
        (1i64 << 54) + 6,
        (1i64 << 60) + 127,
        (1i64 << 60) + 128,
        (1i64 << 60) + 129,
        (1i64 << 60) + 384,
        i64::MAX,
        i64::MAX - 1,
        i64::MAX - 511,
        i64::MAX - 512,
        i64::MAX - 1023,
        i64::MIN,
        i64::MIN + 1,
        i64::MIN + 1024,
        -(1i64 << 53) - 1,
        -(1i64 << 53) - 3,
        1234567890123456789,
        -987654321098765432,
    ];
    let mut x: i64 = 0x1234_5678_9abc_def1;
    for _ in 0..2000 {
        x = x.wrapping_mul(6364136223846793005).wrapping_add(1442695040888963407);
        out.push(x);
        out.push(x >> 7);
        out.push(x >> 11);
        out.push(x >> 23);
        out.push(x >> 40);
    }
    out
}

#[test]
fn from_i64_is_the_nearest_double() {
    for n in samples() {
        assert_eq!(Double::from_i64(n).to_bits(), (n as f64).to_bits(), "n = {}", n);
    }
}

#[test]
fn from_i64_rounds_ties_to_even() {
    // 2^53 + 1 lies between 2^53 and 2^53 + 2; the even significand is that of 2^53.
    assert_eq!(Double::from_i64((1i64 << 53) + 1).to_bits(), 9007199254740992.0f64.to_bits());
    // 2^53 + 3 lies between 2^53 + 2 and 2^53 + 4; the even significand is that of 2^53 + 4.
    assert_eq!(Double::from_i64((1i64 << 53) + 3).to_bits(), 9007199254740996.0f64.to_bits());
    // The largest integer rounds up into the next binade.
    assert_eq!(Double::from_i64(i64::MAX).to_bits(), 9223372036854775808.0f64.to_bits());
    assert_eq!(Double::from_i64(1).to_bits(), 0x3ff0_0000_0000_0000);
    assert_eq!(Double::from_i64(-2).to_bits(), 0xc000_0000_0000_0000);
}

fn int32_of(x: f64) -> Option<i32> {
    if x == 0.0 && x.is_sign_negative() {
        return None;
    }
    if x.is_finite() && x.fract() == 0.0 && x >= i32::MIN as f64 && x <= i32::MAX as f64 {
        Some(x as i32)
    } else {
        None
    }
}

#[test]
fn as_int32_holds_the_whole_numbers_of_32_bits() {
    let doubles: Vec<f64> = vec![
        0.0,
        -0.0,
        1.0,
        -1.0,
        0.5,
        1.5,
        -2.5,
        2147483647.0,
        2147483648.0,
        -2147483648.0,
        -2147483649.0,
        2147483647.5,
        4294967295.0,
        4294967296.0,
        1e300,
        -1e300,
        f64::INFINITY,
        f64::NEG_INFINITY,
        f64::NAN,
        f64::MIN_POSITIVE,
        5e-324,
        123456.0,
        -123456.0,
        123456.000001,
    ];
    for x in doubles {
        assert_eq!(Double::from_bits(x.to_bits()).as_int32(), int32_of(x), "x = {}", x);
    }
    for n in samples() {
        let x = n as f64;
        assert_eq!(Double::from_bits(x.to_bits()).as_int32(), int32_of(x), "x = {}", x);
        let k = n as i32;
        assert_eq!(Double::from_i64(k as i64).as_int32(), Some(k));
        let y = f64::from_bits(n as u64);
        assert_eq!(Double::from_bits(n as u64).as_int32(), int32_of(y), "bits = {}", n);
    }
}

#[test]
fn decimal_string_writes_integers() {
    assert_eq!(decimal_string(0), "0");
    assert_eq!(decimal_string(7), "7");
    assert_eq!(decimal_string(10), "10");
    assert_eq!(decimal_string(-1), "-1");
    assert_eq!(decimal_string(1234567890), "1234567890");
    assert_eq!(decimal_string(i64::MAX), "9223372036854775807");
    assert_eq!(decimal_string(i64::MIN), "-9223372036854775808");
    for n in samples() {
        assert_eq!(decimal_string(n), n.to_string());
    }
}
