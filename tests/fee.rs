use bdk_types::{fee_rate_bits_valid, Vbytes};

#[test]
fn vbytes_rounds_up() {
    assert_eq!(0usize.vbytes(), 0);
    assert_eq!(1usize.vbytes(), 1);
    assert_eq!(3usize.vbytes(), 1);
    assert_eq!(4usize.vbytes(), 1);
    assert_eq!(5usize.vbytes(), 2);
    assert_eq!(8usize.vbytes(), 2);
    assert_eq!(9usize.vbytes(), 3);
    assert_eq!(1000usize.vbytes(), 250);
}

#[test]
fn vbytes_of_largest_size() {
    assert_eq!(usize::MAX.vbytes(), usize::MAX / 4 + 1);
    assert_eq!((usize::MAX - 3).vbytes(), usize::MAX / 4);
}

#[test]
fn fee_rate_accepts_positive_zero_and_normals() {
    assert!(fee_rate_bits_valid(0.0f32.to_bits()));
    assert!(fee_rate_bits_valid(1.0f32.to_bits()));
    assert!(fee_rate_bits_valid(0.3f32.to_bits()));
    assert!(fee_rate_bits_valid(f32::MIN_POSITIVE.to_bits()));
    assert!(fee_rate_bits_valid(f32::MAX.to_bits()));
}

#[test]
fn fee_rate_refuses_negative_zero() {
    assert!(!fee_rate_bits_valid((-0.0f32).to_bits()));
}

#[test]
fn fee_rate_refuses_negative_values() {
    assert!(!fee_rate_bits_valid((-5.0f32).to_bits()));
    assert!(!fee_rate_bits_valid(f32::MIN.to_bits()));
    assert!(!fee_rate_bits_valid(f32::NEG_INFINITY.to_bits()));
}

#[test]
fn fee_rate_refuses_nan_and_infinity() {
    assert!(!fee_rate_bits_valid(f32::NAN.to_bits()));
    assert!(!fee_rate_bits_valid(f32::INFINITY.to_bits()));
}

#[test]
fn fee_rate_refuses_subnormals() {
    assert!(!fee_rate_bits_valid((f32::MIN_POSITIVE / 2.0).to_bits()));
    assert!(!fee_rate_bits_valid(1u32));
}
