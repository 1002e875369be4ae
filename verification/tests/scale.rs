use image_resizer::scale::{scale_length, ScaleFactor};

fn by_hardware(length: u32, scale: f32) -> u32 {
    (length as f32 * scale) as u32
}

fn by_library(length: u32, scale: f32) -> u32 {
    scale_length(length, ScaleFactor::from_bits(scale.to_bits()))
}

#[test]
fn halves_and_doubles() {
    assert_eq!(by_library(800, 0.5), 400);
    assert_eq!(by_library(801, 0.5), 400);
    assert_eq!(by_library(600, 2.0), 1200);
    assert_eq!(by_library(1, 1.0), 1);
    assert_eq!(by_library(1920, 0.25), 480);
    assert_eq!(by_library(3, 1.5), 4);
}

#[test]
fn product_is_cut_not_rounded() {
    assert_eq!(by_library(10, 0.99), 9);
    assert_eq!(by_library(7, 0.5), 3);
    assert_eq!(by_library(1, 0.999), 0);
    assert_eq!(by_library(100, 0.1), 10);
}

#[test]
fn rounding_of_the_product_can_reach_the_next_whole_number() {
    // 1000001 * 0.999999 is a little under 1000000, but single precision cannot tell.
    assert_eq!(by_hardware(1000001, 0.999999), 1000000);
    assert_eq!(by_library(1000001, 0.999999), 1000000);
}

#[test]
fn lengths_beyond_single_precision_are_rounded_first() {
    assert_eq!(by_library(16777217, 1.0), 16777216);
    assert_eq!(by_library(16777219, 1.0), 16777220);
    assert_eq!(by_library(4294967295, 1.0), 4294967295);
    assert_eq!(by_library(4294967167, 1.0), 4294967040);
    assert_eq!(by_library(4294967168, 1.0), 4294967295);
}

#[test]
fn special_scale_factors() {
    assert_eq!(by_library(100, f32::NAN), 0);
    assert_eq!(by_library(100, f32::INFINITY), u32::MAX);
    assert_eq!(by_library(0, f32::INFINITY), 0);
    assert_eq!(by_library(100, f32::NEG_INFINITY), 0);
    assert_eq!(by_library(100, -1.0), 0);
    assert_eq!(by_library(100, -0.0), 0);
    assert_eq!(by_library(100, 0.0), 0);
    assert_eq!(by_library(0, 3.0), 0);
    assert_eq!(by_library(100, f32::MAX), u32::MAX);
    assert_eq!(by_library(100, f32::MIN_POSITIVE), 0);
    assert_eq!(by_library(u32::MAX, f32::from_bits(1)), 0);
    assert_eq!(by_library(3, 1.0e9), 3000000000);
    assert_eq!(by_library(5, 1.0e9), u32::MAX);
}

#[test]
fn agrees_with_hardware_on_chosen_values() {
    let lengths: [u32; 24] = [
        0, 1, 2, 3, 7, 10, 99, 640, 800, 1023, 1080, 1920, 4096, 65535, 65536, 999999, 1000001,
        16777215, 16777216, 16777217, 33554433, 2147483647, 4294967167, 4294967295,
    ];
    let scales: [f32; 28] = [
        0.0, -0.0, 1.0, -1.0, 0.5, 0.25, 0.75, 0.1, 0.2, 0.3, 0.33333334, 0.6666667, 0.9, 0.99,
        0.999999, 1.0000001, 1.5, 2.0, 3.0, 10.0, 1.0e-10, 1.0e10, 1.0e38, 1.0e-38, 1.0e-45,
        f32::MAX, f32::INFINITY, f32::NAN,
    ];
    for &length in lengths.iter() {
        for &scale in scales.iter() {
            assert_eq!(by_library(length, scale), by_hardware(length, scale), "{length} * {scale}");
        }
    }
}

#[test]
fn agrees_with_hardware_on_many_values() {
    let mut state: u64 = 0x2545_f491_4f6c_dd1d;
    let mut next = move || {
        state ^= state << 13;
        state ^= state >> 7;
        state ^= state << 17;
        state
    };
    for round in 0..400_000u32 {
        let word = next();
        let bits = (word >> 32) as u32;
        let mut length = word as u32;
        if round % 3 == 0 {
            length >>= (word >> 59) as u32;
        }
        let scale = f32::from_bits(bits);
        assert_eq!(by_library(length, scale), by_hardware(length, scale), "{length} * {scale:e}");
    }
}

#[test]
fn agrees_with_hardware_on_everyday_scales() {
    let mut state: u64 = 0x9e37_79b9_7f4a_7c15;
    let mut next = move || {
        state ^= state << 13;
        state ^= state >> 7;
        state ^= state << 17;
        state
    };
    for _ in 0..400_000u32 {
        let word = next();
        let length = (word as u32) >> ((word >> 60) as u32 + 4);
        let scale = ((word >> 32) as u32 % 1_000_000) as f32 / 100_000.0;
        assert_eq!(by_library(length, scale), by_hardware(length, scale), "{length} * {scale:e}");
    }
}
