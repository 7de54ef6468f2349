use fluent_number::binary64::{
    encodes_nan, from_i128, from_i16, from_i32, from_i64, from_i8, from_isize, from_magnitude,
    from_u128, from_u16, from_u32, from_u64, from_u8, from_usize, power_of_two, same_number,
    sign_is_set, to_i128, to_i16, to_i32, to_i64, to_i8, to_isize, to_u128, to_u16, to_u32,
    to_u64, to_u8, to_usize, whole_magnitude,
};
use fluent_number::{FluentNumber, FluentNumberOptions, FluentValue};

fn number(value: f64) -> FluentNumber {
    FluentNumber::new(value.to_bits(), FluentNumberOptions::default())
}

const SAMPLES: [f64; 30] = [
    0.0,
    -0.0,
    0.4,
    0.99,
    1.0,
    -1.0,
    1.5,
    -1.5,
    2.9,
    127.0,
    127.9,
    128.0,
    -128.0,
    -128.9,
    -129.0,
    255.5,
    256.0,
    65535.9,
    2147483647.0,
    2147483648.0,
    -2147483649.0,
    9007199254740992.0,
    9223372036854775807.0,
    -9223372036854775808.0,
    18446744073709551615.0,
    1e30,
    -1e30,
    1e300,
    5e-324,
    f64::MAX,
];

#[test]
fn casts_to_integers_as_the_language_does() {
    let special = [f64::NAN, f64::INFINITY, f64::NEG_INFINITY, f64::MIN, f64::MIN_POSITIVE];
    for value in SAMPLES.iter().chain(special.iter()) {
        let value = *value;
        let bits = value.to_bits();
        assert_eq!(to_i8(bits), value as i8, "{}", value);
        assert_eq!(to_u8(bits), value as u8, "{}", value);
        assert_eq!(to_i32(bits), value as i32, "{}", value);
        assert_eq!(to_i64(bits), value as i64, "{}", value);
        assert_eq!(to_u64(bits), value as u64, "{}", value);
        assert_eq!(to_i128(bits), value as i128, "{}", value);
        assert_eq!(to_u128(bits), value as u128, "{}", value);
        assert_eq!(to_usize(bits), value as usize, "{}", value);
        assert_eq!(i16::from(number(value)), value as i16, "{}", value);
        assert_eq!(u16::from(&number(value)), value as u16, "{}", value);
        assert_eq!(u32::from(number(value)), value as u32, "{}", value);
        assert_eq!(isize::from(&number(value)), value as isize, "{}", value);
    }
}

#[test]
fn cast_edges() {
    assert_eq!(to_u8(300.7f64.to_bits()), 255);
    assert_eq!(to_u8((-3.0f64).to_bits()), 0);
    assert_eq!(to_i8((-200.0f64).to_bits()), -128);
    assert_eq!(to_i8(f64::NAN.to_bits()), 0);
    assert_eq!(to_i64(f64::INFINITY.to_bits()), i64::MAX);
    assert_eq!(to_i64(f64::NEG_INFINITY.to_bits()), i64::MIN);
    assert_eq!(to_u64((-0.0f64).to_bits()), 0);
    assert_eq!(to_i32((-7.99f64).to_bits()), -7);
    assert_eq!(to_u128(2f64.powi(127).to_bits()), 1u128 << 127);
    assert_eq!(to_u128(2f64.powi(128).to_bits()), u128::MAX);
    assert_eq!(to_i128((-(2f64.powi(127))).to_bits()), i128::MIN);
}

#[test]
fn whole_magnitude_of_a_pattern() {
    assert_eq!(whole_magnitude(1234.9f64.to_bits()), 1234);
    assert_eq!(whole_magnitude((-1234.9f64).to_bits()), 1234);
    assert_eq!(whole_magnitude(0.5f64.to_bits()), 0);
    assert_eq!(whole_magnitude(f64::NAN.to_bits()), 0);
    assert_eq!(whole_magnitude(f64::INFINITY.to_bits()), u128::MAX);
    assert_eq!(whole_magnitude(1e300f64.to_bits()), u128::MAX);
    assert_eq!(whole_magnitude(2f64.powi(100).to_bits()), 1u128 << 100);
    assert!(sign_is_set((-0.0f64).to_bits()));
    assert!(!sign_is_set(3.0f64.to_bits()));
    assert_eq!(power_of_two(0), 1);
    assert_eq!(power_of_two(10), 1024);
    assert_eq!(power_of_two(127), 1u128 << 127);
}

#[test]
fn integers_become_numbers_as_the_language_casts() {
    let unsigned: [u128; 22] = [
        0,
        1,
        2,
        3,
        255,
        65536,
        (1 << 52) + 1,
        (1 << 53) - 1,
        1 << 53,
        (1 << 53) + 1,
        (1 << 53) + 2,
        (1 << 53) + 3,
        (1 << 54) + 2,
        (1 << 54) + 6,
        (1 << 54) - 1,
        u64::MAX as u128,
        u64::MAX as u128 - 1023,
        u64::MAX as u128 - 1024,
        (1 << 100) + (1 << 47),
        (1 << 100) + (1 << 47) + 1,
        u128::MAX,
        u128::MAX - (1 << 74),
    ];
    for n in unsigned {
        assert_eq!(from_u128(n), (n as f64).to_bits(), "{}", n);
        assert_eq!(from_magnitude(false, n), (n as f64).to_bits(), "{}", n);
        if n != 0 {
            assert_eq!(from_magnitude(true, n), (-(n as f64)).to_bits(), "{}", n);
        }
        if n <= u64::MAX as u128 {
            assert_eq!(from_u64(n as u64), (n as u64 as f64).to_bits(), "{}", n);
        }
        if n <= i128::MAX as u128 {
            let negative = -(n as i128);
            assert_eq!(from_i128(negative), (negative as f64).to_bits(), "{}", negative);
        }
    }
    for n in [i64::MIN, i64::MIN + 1, -1, 0, 1, i64::MAX, i64::MAX - 512, -(1 << 53) - 1] {
        assert_eq!(from_i64(n), (n as f64).to_bits(), "{}", n);
    }
    assert_eq!(from_i128(i128::MIN), (i128::MIN as f64).to_bits());
    assert_eq!(from_magnitude(true, 0), 0.0f64.to_bits());
}

#[test]
fn every_integer_kind_becomes_a_number() {
    let expected = number(7.0);
    assert_eq!(FluentNumber::from(7i8), expected);
    assert_eq!(FluentNumber::from(7i16), expected);
    assert_eq!(FluentNumber::from(7i32), expected);
    assert_eq!(FluentNumber::from(7i64), expected);
    assert_eq!(FluentNumber::from(7i128), expected);
    assert_eq!(FluentNumber::from(7isize), expected);
    assert_eq!(FluentNumber::from(7u8), expected);
    assert_eq!(FluentNumber::from(7u16), expected);
    assert_eq!(FluentNumber::from(7u32), expected);
    assert_eq!(FluentNumber::from(7u64), expected);
    assert_eq!(FluentNumber::from(7u128), expected);
    assert_eq!(FluentNumber::from(7usize), expected);
    assert_eq!(FluentNumber::from(&7i8), expected);
    assert_eq!(FluentNumber::from(&7i16), expected);
    assert_eq!(FluentNumber::from(&7i32), expected);
    assert_eq!(FluentNumber::from(&7i64), expected);
    assert_eq!(FluentNumber::from(&7i128), expected);
    assert_eq!(FluentNumber::from(&7isize), expected);
    assert_eq!(FluentNumber::from(&7u8), expected);
    assert_eq!(FluentNumber::from(&7u16), expected);
    assert_eq!(FluentNumber::from(&7u32), expected);
    assert_eq!(FluentNumber::from(&7u64), expected);
    assert_eq!(FluentNumber::from(&7u128), expected);
    assert_eq!(FluentNumber::from(&7usize), expected);
    assert_eq!(FluentNumber::from(-7i8).value, (-7.0f64).to_bits());
    assert_eq!(FluentNumber::from(i8::MIN).value, (-128.0f64).to_bits());
    assert_eq!(FluentNumber::from(-7i32).options, FluentNumberOptions::default());
}

#[test]
fn every_integer_kind_becomes_a_value() {
    let expected = FluentValue::Number(number(7.0));
    assert_eq!(FluentValue::from(7i8), expected);
    assert_eq!(FluentValue::from(7i16), expected);
    assert_eq!(FluentValue::from(7i32), expected);
    assert_eq!(FluentValue::from(7i64), expected);
    assert_eq!(FluentValue::from(7i128), expected);
    assert_eq!(FluentValue::from(7isize), expected);
    assert_eq!(FluentValue::from(7u8), expected);
    assert_eq!(FluentValue::from(7u16), expected);
    assert_eq!(FluentValue::from(7u32), expected);
    assert_eq!(FluentValue::from(7u64), expected);
    assert_eq!(FluentValue::from(7u128), expected);
    assert_eq!(FluentValue::from(7usize), expected);
    assert_eq!(FluentValue::from(&7i8), expected);
    assert_eq!(FluentValue::from(&7i32), expected);
    assert_eq!(FluentValue::from(&7i64), expected);
    assert_eq!(FluentValue::from(&7i128), expected);
    assert_eq!(FluentValue::from(&7isize), expected);
    assert_eq!(FluentValue::from(&7u8), expected);
    assert_eq!(FluentValue::from(&7u16), expected);
    assert_eq!(FluentValue::from(&7u32), expected);
    assert_eq!(FluentValue::from(&7u64), expected);
    assert_eq!(FluentValue::from(&7u128), expected);
    assert_eq!(FluentValue::from(&7usize), expected);
}

#[test]
fn every_integer_kind_comes_from_a_number() {
    let value = number(-300.75);
    assert_eq!(i8::from(value.clone()), -128);
    assert_eq!(i16::from(value.clone()), -300);
    assert_eq!(i32::from(value.clone()), -300);
    assert_eq!(i64::from(value.clone()), -300);
    assert_eq!(i128::from(value.clone()), -300);
    assert_eq!(isize::from(value.clone()), -300);
    assert_eq!(u8::from(value.clone()), 0);
    assert_eq!(u16::from(value.clone()), 0);
    assert_eq!(u32::from(value.clone()), 0);
    assert_eq!(u64::from(value.clone()), 0);
    assert_eq!(u128::from(value.clone()), 0);
    assert_eq!(usize::from(value.clone()), 0);
    let value = number(70000.9);
    assert_eq!(i8::from(&value), 127);
    assert_eq!(i16::from(&value), 32767);
    assert_eq!(i32::from(&value), 70000);
    assert_eq!(i64::from(&value), 70000);
    assert_eq!(i128::from(&value), 70000);
    assert_eq!(isize::from(&value), 70000);
    assert_eq!(u8::from(&value), 255);
    assert_eq!(u16::from(&value), 65535);
    assert_eq!(u32::from(&value), 70000);
    assert_eq!(u64::from(&value), 70000);
    assert_eq!(u128::from(&value), 70000);
    assert_eq!(usize::from(&value), 70000);
}

#[test]
fn exact_integers_come_back() {
    for n in [0i64, 1, -1, 42, -4096, (1 << 53) - 1, -(1 << 53) + 1, i32::MAX as i64] {
        assert_eq!(i64::from(FluentNumber::from(n)), n);
        assert_eq!(i128::from(FluentNumber::from(n)), n as i128);
    }
}

#[test]
fn same_number_is_the_equality_of_values() {
    assert!(same_number(1.5f64.to_bits(), 1.5f64.to_bits()));
    assert!(!same_number(1.5f64.to_bits(), 2.5f64.to_bits()));
    assert!(same_number(0.0f64.to_bits(), (-0.0f64).to_bits()));
    assert!(!same_number(f64::NAN.to_bits(), f64::NAN.to_bits()));
    assert!(!same_number(f64::NAN.to_bits(), 1.0f64.to_bits()));
    assert!(same_number(f64::INFINITY.to_bits(), f64::INFINITY.to_bits()));
    assert!(!same_number(f64::INFINITY.to_bits(), f64::NEG_INFINITY.to_bits()));
}

fn next(state: &mut u64) -> u64 {
    *state ^= *state << 13;
    *state ^= *state >> 7;
    *state ^= *state << 17;
    *state
}

#[test]
fn any_pattern_casts_as_the_language_does() {
    let mut state: u64 = 0x9e37_79b9_7f4a_7c15;
    for round in 0..200_000u32 {
        let mut bits = next(&mut state);
        if round % 2 == 0 {
            let exponent = 1023 - 4 + next(&mut state) % 140;
            bits = (bits & 0x800f_ffff_ffff_ffff) | (exponent << 52);
        }
        let value = f64::from_bits(bits);
        assert_eq!(to_i8(bits), value as i8, "{:x}", bits);
        assert_eq!(to_i16(bits), value as i16, "{:x}", bits);
        assert_eq!(to_i32(bits), value as i32, "{:x}", bits);
        assert_eq!(to_i64(bits), value as i64, "{:x}", bits);
        assert_eq!(to_i128(bits), value as i128, "{:x}", bits);
        assert_eq!(to_isize(bits), value as isize, "{:x}", bits);
        assert_eq!(to_u8(bits), value as u8, "{:x}", bits);
        assert_eq!(to_u16(bits), value as u16, "{:x}", bits);
        assert_eq!(to_u32(bits), value as u32, "{:x}", bits);
        assert_eq!(to_u64(bits), value as u64, "{:x}", bits);
        assert_eq!(to_u128(bits), value as u128, "{:x}", bits);
        assert_eq!(to_usize(bits), value as usize, "{:x}", bits);
        assert_eq!(encodes_nan(bits), value.is_nan(), "{:x}", bits);
        assert_eq!(sign_is_set(bits), value.is_sign_negative(), "{:x}", bits);
        let other = next(&mut state);
        assert_eq!(same_number(bits, other), value == f64::from_bits(other), "{:x}", bits);
        assert_eq!(same_number(bits, bits), value == value, "{:x}", bits);
    }
}

#[test]
fn any_integer_becomes_the_number_of_the_language() {
    let mut state: u64 = 0x2545_f491_4f6c_dd1d;
    for round in 0..200_000u32 {
        let high = next(&mut state) as u128;
        let low = next(&mut state) as u128;
        let mut n = (high << 64) | low;
        n >>= next(&mut state) % 128;
        if round % 3 == 0 {
            let keep = 1 + next(&mut state) % 60;
            let width = 128 - n.leading_zeros() as u64;
            if width > keep {
                let cut = width - keep;
                n = (n >> cut) << cut;
                if round % 6 == 0 {
                    n |= 1u128 << (cut - 1);
                }
            }
        }
        assert_eq!(from_u128(n), (n as f64).to_bits(), "{}", n);
        assert_eq!(from_i128(n as i128), (n as i128 as f64).to_bits(), "{}", n);
        assert_eq!(from_u64(n as u64), (n as u64 as f64).to_bits(), "{}", n);
        assert_eq!(from_i64(n as i64), (n as i64 as f64).to_bits(), "{}", n);
        assert_eq!(from_usize(n as usize), (n as usize as f64).to_bits(), "{}", n);
        assert_eq!(from_isize(n as isize), (n as isize as f64).to_bits(), "{}", n);
        assert_eq!(from_u32(n as u32), (n as u32 as f64).to_bits(), "{}", n);
        assert_eq!(from_i32(n as i32), (n as i32 as f64).to_bits(), "{}", n);
        assert_eq!(from_u16(n as u16), (n as u16 as f64).to_bits(), "{}", n);
        assert_eq!(from_i16(n as i16), (n as i16 as f64).to_bits(), "{}", n);
        assert_eq!(from_u8(n as u8), (n as u8 as f64).to_bits(), "{}", n);
        assert_eq!(from_i8(n as i8), (n as i8 as f64).to_bits(), "{}", n);
    }
}
