use biquad::pack::assemble_direct;
use biquad::pack::assemble_nibbles;
use biquad::pack::encode_code;
use biquad::pack::quantize;
use biquad::pack::quantize_set;
use biquad::pack::split_direct;
use biquad::pack::split_nibbles;
use biquad::pack::unpack_code;
use biquad::pack::ByteLayout;
use biquad::pack::CoefError;
use biquad::pack::FormattedCoef;
use biquad::pack::ScaledCoef;
use biquad::pack::ScaledCoefs;

/// Fixed-point reading of a double-precision coefficient, as the
/// program deriving the coefficients performs it.
fn scale(coef: f64) -> ScaledCoef {
    ScaledCoef {
        magnitude: ((2.0f64.powi(20) * coef).floor().abs()) as u32,
        positive: coef > 0.0,
    }
}

#[test]
fn passthrough_set_is_deterministic() {
    // The pass-through filter {b0=1, b1=-2, b2=1, a1=-2, a2=1},
    // packed directly without any derivation.
    let coefs = ScaledCoefs {
        a1: scale(-2.0),
        a2: scale(1.0),
        b0: scale(1.0),
        b1: scale(-2.0),
        b2: scale(1.0),
    };
    let first = quantize_set(coefs, ByteLayout::Direct).unwrap();
    let second = quantize_set(coefs, ByteLayout::Direct).unwrap();
    assert_eq!(first, second);
    assert_eq!(first.to_dec(), "16 0 0 224 0 0 16 0 0 224 0 0 16 0 0");
    assert_eq!(first.to_hex(), "10 00 00 E0 00 00 10 00 00 E0 00 00 10 00 00");
}

#[test]
fn zero_takes_the_non_positive_branch() {
    // 0.0 > 0.0 is false, so exact zero is encoded on the negative
    // branch as 2^24 - 0, which wraps to code 0.
    let from_pos_zero = scale(0.0);
    let from_neg_zero = scale(-0.0);
    assert_eq!(from_pos_zero, from_neg_zero);
    assert!(!from_pos_zero.positive);
    let packed = quantize(from_pos_zero, ByteLayout::Direct).unwrap();
    assert_eq!(packed, FormattedCoef { hi: 0, mid: 0, lo: 0 });
    // A zero carrying a positive sign yields the same code.
    let packed_pos = quantize(
        ScaledCoef { magnitude: 0, positive: true },
        ByteLayout::Direct,
    )
    .unwrap();
    assert_eq!(packed, packed_pos);
}

#[test]
fn overflow_is_refused() {
    // Magnitude 2^24 corresponds to |coef| = 16.0, one past the field.
    let too_big = ScaledCoef {
        magnitude: 0x1000000,
        positive: true,
    };
    assert_eq!(
        quantize(too_big, ByteLayout::Direct),
        Err(CoefError::QuantizationOverflow)
    );
    let coefs = ScaledCoefs {
        a1: scale(0.5),
        a2: scale(0.5),
        b0: scale(0.5),
        b1: too_big,
        b2: scale(0.5),
    };
    assert_eq!(
        quantize_set(coefs, ByteLayout::Direct),
        Err(CoefError::QuantizationOverflow)
    );
}

#[test]
fn code_roundtrip_recovers_value() {
    let half = scale(0.5);
    assert_eq!(unpack_code(encode_code(half)), half);
    let minus = scale(-0.3);
    assert_eq!(minus.magnitude, 314573); // ceil(0.3 * 2^20): floor before abs
    assert_eq!(unpack_code(encode_code(minus)), minus);
}

#[test]
fn direct_split_concrete() {
    let bytes = split_direct(0x123456);
    assert_eq!(
        bytes,
        FormattedCoef {
            hi: 0x12,
            mid: 0x34,
            lo: 0x56
        }
    );
    assert_eq!(assemble_direct(bytes), 0x123456);
}

#[test]
fn nibble_split_concrete() {
    // Code 0xA0B2C3: first byte carries bits 7..4, second bits 15..12
    // beside bits 3..0, third bits 23..20 beside bits 11..8.
    let bytes = split_nibbles(0xA0B2C3);
    assert_eq!(
        bytes,
        FormattedCoef {
            hi: 0x0C,
            mid: 0x3B,
            lo: 0x2A
        }
    );
    // Bits 19..16 of this code are zero, so reassembly is exact.
    assert_eq!(assemble_nibbles(bytes), 0xA0B2C3);
}

#[test]
fn both_layouts_reassemble_to_the_same_code() {
    // Any 24-bit code whose bits 19..16 are zero is recovered from
    // either decomposition.
    for &code in &[0u32, 0x000001, 0x00FFFF, 0xA0B2C3, 0xF0FFFF, 0x102F9F] {
        assert_eq!(assemble_direct(split_direct(code)), code);
        assert_eq!(assemble_nibbles(split_nibbles(code)), code);
    }
}
