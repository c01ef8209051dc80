use cam_core::single::{micros_from_bits, pixels_from_bits};

fn expected_micros(x: f32) -> i64 {
    // The product is exact in double precision, and the cast rounds towards
    // zero, saturates, and gives zero for no number.
    (x as f64 * 1_000_000.0) as i64
}

fn expected_pixels(x: f32, zoom: u16) -> u32 {
    (x as f64 * zoom as f64) as u32
}

#[test]
fn micros_of_plain_values() {
    assert_eq!(micros_from_bits(0.0_f32.to_bits()), 0);
    assert_eq!(micros_from_bits((-0.0_f32).to_bits()), 0);
    assert_eq!(micros_from_bits(1.0_f32.to_bits()), 1_000_000);
    assert_eq!(micros_from_bits(100.0_f32.to_bits()), 100_000_000);
    assert_eq!(micros_from_bits(8.0_f32.to_bits()), 8_000_000);
    assert_eq!(micros_from_bits((-2.5_f32).to_bits()), -2_500_000);
    assert_eq!(micros_from_bits(290.0_f32.to_bits()), 290_000_000);
    assert_eq!(micros_from_bits(0.5_f32.to_bits()), 500_000);
}

#[test]
fn micros_of_bit_patterns() {
    assert_eq!(micros_from_bits(0x3f80_0000), 1_000_000);
    assert_eq!(micros_from_bits(0x42c8_0000), 100_000_000);
    assert_eq!(micros_from_bits(0xc020_0000), -2_500_000);
}

#[test]
fn micros_round_towards_zero() {
    // One tenth in single precision is 0.100000001490116...
    assert_eq!(micros_from_bits(0.1_f32.to_bits()), 100_000);
    // Seven tenths in single precision is 0.699999988079071...
    assert_eq!(micros_from_bits(0.7_f32.to_bits()), 699_999);
    assert_eq!(micros_from_bits((-0.7_f32).to_bits()), -699_999);
    assert_eq!(micros_from_bits(0.007_f32.to_bits()), expected_micros(0.007));
    assert_eq!(micros_from_bits(1.07_f32.to_bits()), 1_070_000);
    assert_eq!(micros_from_bits(0.000_000_9_f32.to_bits()), 0);
    assert_eq!(micros_from_bits((-0.000_000_9_f32).to_bits()), 0);
}

#[test]
fn micros_of_what_is_no_number_is_zero() {
    assert_eq!(micros_from_bits(f32::NAN.to_bits()), 0);
    assert_eq!(micros_from_bits(0x7fc0_0001), 0);
    assert_eq!(micros_from_bits(0xffff_ffff), 0);
    assert_eq!(micros_from_bits(0x7f80_0001), 0);
}

#[test]
fn micros_saturate() {
    assert_eq!(micros_from_bits(f32::INFINITY.to_bits()), i64::MAX);
    assert_eq!(micros_from_bits(f32::NEG_INFINITY.to_bits()), i64::MIN);
    assert_eq!(micros_from_bits(f32::MAX.to_bits()), i64::MAX);
    assert_eq!(micros_from_bits(f32::MIN.to_bits()), i64::MIN);
    assert_eq!(micros_from_bits(1.0e13_f32.to_bits()), i64::MAX);
    assert_eq!(micros_from_bits((-1.0e13_f32).to_bits()), i64::MIN);
    // The largest that still fits: below 2^63 millionths.
    assert_eq!(micros_from_bits(9.0e12_f32.to_bits()), expected_micros(9.0e12_f32));
    assert!(micros_from_bits(9.0e12_f32.to_bits()) < i64::MAX);
}

#[test]
fn micros_of_the_smallest_values() {
    assert_eq!(micros_from_bits(1), 0);
    assert_eq!(micros_from_bits(0x8000_0001), 0);
    assert_eq!(micros_from_bits(f32::MIN_POSITIVE.to_bits()), 0);
    assert_eq!(micros_from_bits(0x007f_ffff), 0);
}

#[test]
fn micros_agree_with_exact_arithmetic_on_many_patterns() {
    let mut bits: u32 = 0;
    let mut count: u32 = 0;
    loop {
        let x = f32::from_bits(bits);
        assert_eq!(micros_from_bits(bits), expected_micros(x), "bits {:#010x}", bits);
        count += 1;
        match bits.checked_add(0x0000_9e37) {
            Some(next) => bits = next,
            None => break,
        }
    }
    assert!(count > 100_000);
}

#[test]
fn micros_agree_with_exact_arithmetic_around_each_exponent() {
    for exponent in 0_u32..=255 {
        for sign in [0_u32, 0x8000_0000] {
            for fraction in [0_u32, 1, 2, 0x0040_0000, 0x0068_db8b, 0x007f_fffe, 0x007f_ffff] {
                let bits = sign | (exponent << 23) | fraction;
                let x = f32::from_bits(bits);
                assert_eq!(micros_from_bits(bits), expected_micros(x), "bits {:#010x}", bits);
            }
        }
    }
}

#[test]
fn pixels_of_plain_values() {
    assert_eq!(pixels_from_bits(100.0_f32.to_bits(), 8), 800);
    assert_eq!(pixels_from_bits(100.0_f32.to_bits(), 1), 100);
    assert_eq!(pixels_from_bits(100.0_f32.to_bits(), 0), 0);
    assert_eq!(pixels_from_bits(0.0_f32.to_bits(), 8), 0);
    assert_eq!(pixels_from_bits(12.5_f32.to_bits(), 8), 100);
    assert_eq!(pixels_from_bits(0.125_f32.to_bits(), 8), 1);
}

#[test]
fn pixels_round_down() {
    assert_eq!(pixels_from_bits(12.4999_f32.to_bits(), 8), 99);
    assert_eq!(pixels_from_bits(0.05_f32.to_bits(), 8), 0);
    assert_eq!(pixels_from_bits(0.124_f32.to_bits(), 8), 0);
    assert_eq!(pixels_from_bits(33.3_f32.to_bits(), 3), 99);
}

#[test]
fn pixels_of_a_negative_length_or_of_no_number_are_zero() {
    assert_eq!(pixels_from_bits((-100.0_f32).to_bits(), 8), 0);
    assert_eq!(pixels_from_bits(f32::NEG_INFINITY.to_bits(), 8), 0);
    assert_eq!(pixels_from_bits(f32::NAN.to_bits(), 8), 0);
    assert_eq!(pixels_from_bits(0xffc0_0000, 8), 0);
}

#[test]
fn pixels_saturate() {
    assert_eq!(pixels_from_bits(f32::INFINITY.to_bits(), 8), u32::MAX);
    assert_eq!(pixels_from_bits(f32::MAX.to_bits(), 1), u32::MAX);
    assert_eq!(pixels_from_bits(1.0e9_f32.to_bits(), 8), u32::MAX);
    assert_eq!(pixels_from_bits(1.0e8_f32.to_bits(), 8), 800_000_000);
    assert_eq!(pixels_from_bits(4_294_967_040.0_f32.to_bits(), 1), 4_294_967_040);
    assert_eq!(pixels_from_bits(4_294_967_296.0_f32.to_bits(), 1), u32::MAX);
}

#[test]
fn pixels_agree_with_exact_arithmetic_on_many_patterns() {
    for zoom in [0_u16, 1, 3, 8, 255, 4096, u16::MAX] {
        let mut bits: u32 = 0;
        loop {
            let x = f32::from_bits(bits);
            assert_eq!(
                pixels_from_bits(bits, zoom),
                expected_pixels(x, zoom),
                "bits {:#010x} zoom {}",
                bits,
                zoom
            );
            match bits.checked_add(0x0007_a337) {
                Some(next) => bits = next,
                None => break,
            }
        }
    }
}

#[test]
fn pixels_at_eight_times_are_what_single_precision_gives() {
    // Enlarging eight times is exact in single precision, so the count of
    // pixels is that of the product computed there.
    for x in [0.3_f32, 1.0, 17.77, 100.0, 123.456, 2048.5, 65_535.9, 1.0e7] {
        assert_eq!(pixels_from_bits(x.to_bits(), 8), (x * 8.0) as u32);
    }
}
